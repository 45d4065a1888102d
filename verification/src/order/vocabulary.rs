//! The fixed vocabulary of the wire: states, carriers, sort keys.

use vstd::prelude::*;
use vstd::string::*;

verus! {

/// The states an order or an order line goes through.
#[derive(Clone, Copy, Debug, PartialEq, Eq, Structural)]
#[allow(non_camel_case_types)]
pub enum OrderState {
    STAGING,
    WAITING_ACCEPTANCE,
    WAITING_DEBIT,
    WAITING_DEBIT_PAYMENT,
    SHIPPING,
    SHIPPED,
    TO_COLLECT,
    RECEIVED,
    CLOSED,
    REFUSED,
    CANCELED,
}

impl OrderState {
    /// The state's code on the wire.
    pub open spec fn token_text(self) -> Seq<char> {
        match self {
            OrderState::STAGING => "STAGING"@,
            OrderState::WAITING_ACCEPTANCE => "WAITING_ACCEPTANCE"@,
            OrderState::WAITING_DEBIT => "WAITING_DEBIT"@,
            OrderState::WAITING_DEBIT_PAYMENT => "WAITING_DEBIT_PAYMENT"@,
            OrderState::SHIPPING => "SHIPPING"@,
            OrderState::SHIPPED => "SHIPPED"@,
            OrderState::TO_COLLECT => "TO_COLLECT"@,
            OrderState::RECEIVED => "RECEIVED"@,
            OrderState::CLOSED => "CLOSED"@,
            OrderState::REFUSED => "REFUSED"@,
            OrderState::CANCELED => "CANCELED"@,
        }
    }

    pub fn token(&self) -> (r: String)
        ensures
            r@ == self.token_text(),
    {
        match self {
            OrderState::STAGING => String::from_str("STAGING"),
            OrderState::WAITING_ACCEPTANCE => String::from_str("WAITING_ACCEPTANCE"),
            OrderState::WAITING_DEBIT => String::from_str("WAITING_DEBIT"),
            OrderState::WAITING_DEBIT_PAYMENT => String::from_str("WAITING_DEBIT_PAYMENT"),
            OrderState::SHIPPING => String::from_str("SHIPPING"),
            OrderState::SHIPPED => String::from_str("SHIPPED"),
            OrderState::TO_COLLECT => String::from_str("TO_COLLECT"),
            OrderState::RECEIVED => String::from_str("RECEIVED"),
            OrderState::CLOSED => String::from_str("CLOSED"),
            OrderState::REFUSED => String::from_str("REFUSED"),
            OrderState::CANCELED => String::from_str("CANCELED"),
        }
    }
}

/// The state that a wire code stands for, if it is one.
pub open spec fn state_of(text: Seq<char>) -> Option<OrderState> {
    if text == "STAGING"@ {
        Some(OrderState::STAGING)
    } else if text == "WAITING_ACCEPTANCE"@ {
        Some(OrderState::WAITING_ACCEPTANCE)
    } else if text == "WAITING_DEBIT"@ {
        Some(OrderState::WAITING_DEBIT)
    } else if text == "WAITING_DEBIT_PAYMENT"@ {
        Some(OrderState::WAITING_DEBIT_PAYMENT)
    } else if text == "SHIPPING"@ {
        Some(OrderState::SHIPPING)
    } else if text == "SHIPPED"@ {
        Some(OrderState::SHIPPED)
    } else if text == "TO_COLLECT"@ {
        Some(OrderState::TO_COLLECT)
    } else if text == "RECEIVED"@ {
        Some(OrderState::RECEIVED)
    } else if text == "CLOSED"@ {
        Some(OrderState::CLOSED)
    } else if text == "REFUSED"@ {
        Some(OrderState::REFUSED)
    } else if text == "CANCELED"@ {
        Some(OrderState::CANCELED)
    } else {
        None
    }
}

impl OrderState {
    /// Reads a wire code back.
    pub fn from_token(token: &str) -> (r: Option<OrderState>)
        ensures
            r == state_of(token@),
    {
        let t = String::from_str(token);
        if t == String::from_str("STAGING") {
            Some(OrderState::STAGING)
        } else if t == String::from_str("WAITING_ACCEPTANCE") {
            Some(OrderState::WAITING_ACCEPTANCE)
        } else if t == String::from_str("WAITING_DEBIT") {
            Some(OrderState::WAITING_DEBIT)
        } else if t == String::from_str("WAITING_DEBIT_PAYMENT") {
            Some(OrderState::WAITING_DEBIT_PAYMENT)
        } else if t == String::from_str("SHIPPING") {
            Some(OrderState::SHIPPING)
        } else if t == String::from_str("SHIPPED") {
            Some(OrderState::SHIPPED)
        } else if t == String::from_str("TO_COLLECT") {
            Some(OrderState::TO_COLLECT)
        } else if t == String::from_str("RECEIVED") {
            Some(OrderState::RECEIVED)
        } else if t == String::from_str("CLOSED") {
            Some(OrderState::CLOSED)
        } else if t == String::from_str("REFUSED") {
            Some(OrderState::REFUSED)
        } else if t == String::from_str("CANCELED") {
            Some(OrderState::CANCELED)
        } else {
            None
        }
    }
}

/// No two states share a wire code.
pub proof fn lemma_state_tokens_distinct(a: OrderState, b: OrderState)
    requires
        a.token_text() == b.token_text(),
    ensures
        a == b,
{
    reveal_strlit("STAGING");
    reveal_strlit("WAITING_ACCEPTANCE");
    reveal_strlit("WAITING_DEBIT");
    reveal_strlit("WAITING_DEBIT_PAYMENT");
    reveal_strlit("SHIPPING");
    reveal_strlit("SHIPPED");
    reveal_strlit("TO_COLLECT");
    reveal_strlit("RECEIVED");
    reveal_strlit("CLOSED");
    reveal_strlit("REFUSED");
    reveal_strlit("CANCELED");
    assert("STAGING"@.len() == 7);
    assert("STAGING"@[0] == 'S');
    assert("STAGING"@[1] == 'T');
    assert("WAITING_ACCEPTANCE"@.len() == 18);
    assert("WAITING_ACCEPTANCE"@[0] == 'W');
    assert("WAITING_ACCEPTANCE"@[1] == 'A');
    assert("WAITING_DEBIT"@.len() == 13);
    assert("WAITING_DEBIT"@[0] == 'W');
    assert("WAITING_DEBIT"@[1] == 'A');
    assert("WAITING_DEBIT_PAYMENT"@.len() == 21);
    assert("WAITING_DEBIT_PAYMENT"@[0] == 'W');
    assert("WAITING_DEBIT_PAYMENT"@[1] == 'A');
    assert("SHIPPING"@.len() == 8);
    assert("SHIPPING"@[0] == 'S');
    assert("SHIPPING"@[1] == 'H');
    assert("SHIPPED"@.len() == 7);
    assert("SHIPPED"@[0] == 'S');
    assert("SHIPPED"@[1] == 'H');
    assert("TO_COLLECT"@.len() == 10);
    assert("TO_COLLECT"@[0] == 'T');
    assert("TO_COLLECT"@[1] == 'O');
    assert("RECEIVED"@.len() == 8);
    assert("RECEIVED"@[0] == 'R');
    assert("RECEIVED"@[1] == 'E');
    assert("CLOSED"@.len() == 6);
    assert("CLOSED"@[0] == 'C');
    assert("CLOSED"@[1] == 'L');
    assert("REFUSED"@.len() == 7);
    assert("REFUSED"@[0] == 'R');
    assert("REFUSED"@[1] == 'E');
    assert("CANCELED"@.len() == 8);
    assert("CANCELED"@[0] == 'C');
    assert("CANCELED"@[1] == 'A');
}

/// Writing a code and reading it back gives the state it was written for,
/// and a text that reads as a state is that state's code.
pub proof fn lemma_state_token_round_trip(value: OrderState, text: Seq<char>)
    ensures
        state_of(value.token_text()) == Some(value),
        state_of(text) is Some ==> state_of(text)->0.token_text() == text,
{
    match state_of(value.token_text()) {
        Some(other) => {
            lemma_state_tokens_distinct(other, value);
        },
        None => {},
    }
}

/// The keys orders can be sorted by.
#[derive(Clone, Copy, Debug, PartialEq, Eq, Structural)]
pub enum OrderSort {
    DateCreated,
}

impl OrderSort {
    pub open spec fn token_text(self) -> Seq<char> {
        "dateCreated"@
    }

    pub fn token(&self) -> (r: String)
        ensures
            r@ == self.token_text(),
    {
        String::from_str("dateCreated")
    }
}

/// The direction of a sort.
#[derive(Clone, Copy, Debug, PartialEq, Eq, Structural)]
pub enum SortOrder {
    Asc,
    Desc,
}

impl SortOrder {
    pub open spec fn token_text(self) -> Seq<char> {
        match self {
            SortOrder::Asc => "asc"@,
            SortOrder::Desc => "desc"@,
        }
    }

    pub fn token(&self) -> (r: String)
        ensures
            r@ == self.token_text(),
    {
        match self {
            SortOrder::Asc => String::from_str("asc"),
            SortOrder::Desc => String::from_str("desc"),
        }
    }
}

/// The carriers a shipment can be handed to.
#[derive(Clone, Copy, Debug, PartialEq, Eq, Structural)]
#[allow(non_camel_case_types)]
pub enum CarrierCode {
    CPCL,
    ASYN,
    PRLA,
    UPSN,
    LTL,
    FEDX,
    LCSL,
    DHL,
    CPAR,
}

impl CarrierCode {
    /// The carrier's code on the wire.
    pub open spec fn token_text(self) -> Seq<char> {
        match self {
            CarrierCode::CPCL => "CPCL"@,
            CarrierCode::ASYN => "ASYN"@,
            CarrierCode::PRLA => "PRLA"@,
            CarrierCode::UPSN => "UPSN"@,
            CarrierCode::LTL => "LTL"@,
            CarrierCode::FEDX => "FEDX"@,
            CarrierCode::LCSL => "LCSL"@,
            CarrierCode::DHL => "DHL"@,
            CarrierCode::CPAR => "CPAR"@,
        }
    }

    pub fn token(&self) -> (r: String)
        ensures
            r@ == self.token_text(),
    {
        match self {
            CarrierCode::CPCL => String::from_str("CPCL"),
            CarrierCode::ASYN => String::from_str("ASYN"),
            CarrierCode::PRLA => String::from_str("PRLA"),
            CarrierCode::UPSN => String::from_str("UPSN"),
            CarrierCode::LTL => String::from_str("LTL"),
            CarrierCode::FEDX => String::from_str("FEDX"),
            CarrierCode::LCSL => String::from_str("LCSL"),
            CarrierCode::DHL => String::from_str("DHL"),
            CarrierCode::CPAR => String::from_str("CPAR"),
        }
    }
}

/// The carrier that a wire code stands for, if it is one.
pub open spec fn carrier_of(text: Seq<char>) -> Option<CarrierCode> {
    if text == "CPCL"@ {
        Some(CarrierCode::CPCL)
    } else if text == "ASYN"@ {
        Some(CarrierCode::ASYN)
    } else if text == "PRLA"@ {
        Some(CarrierCode::PRLA)
    } else if text == "UPSN"@ {
        Some(CarrierCode::UPSN)
    } else if text == "LTL"@ {
        Some(CarrierCode::LTL)
    } else if text == "FEDX"@ {
        Some(CarrierCode::FEDX)
    } else if text == "LCSL"@ {
        Some(CarrierCode::LCSL)
    } else if text == "DHL"@ {
        Some(CarrierCode::DHL)
    } else if text == "CPAR"@ {
        Some(CarrierCode::CPAR)
    } else {
        None
    }
}

impl CarrierCode {
    /// Reads a wire code back.
    pub fn from_token(token: &str) -> (r: Option<CarrierCode>)
        ensures
            r == carrier_of(token@),
    {
        let t = String::from_str(token);
        if t == String::from_str("CPCL") {
            Some(CarrierCode::CPCL)
        } else if t == String::from_str("ASYN") {
            Some(CarrierCode::ASYN)
        } else if t == String::from_str("PRLA") {
            Some(CarrierCode::PRLA)
        } else if t == String::from_str("UPSN") {
            Some(CarrierCode::UPSN)
        } else if t == String::from_str("LTL") {
            Some(CarrierCode::LTL)
        } else if t == String::from_str("FEDX") {
            Some(CarrierCode::FEDX)
        } else if t == String::from_str("LCSL") {
            Some(CarrierCode::LCSL)
        } else if t == String::from_str("DHL") {
            Some(CarrierCode::DHL)
        } else if t == String::from_str("CPAR") {
            Some(CarrierCode::CPAR)
        } else {
            None
        }
    }
}

/// No two carriers share a wire code.
pub proof fn lemma_carrier_tokens_distinct(a: CarrierCode, b: CarrierCode)
    requires
        a.token_text() == b.token_text(),
    ensures
        a == b,
{
    reveal_strlit("CPCL");
    reveal_strlit("ASYN");
    reveal_strlit("PRLA");
    reveal_strlit("UPSN");
    reveal_strlit("LTL");
    reveal_strlit("FEDX");
    reveal_strlit("LCSL");
    reveal_strlit("DHL");
    reveal_strlit("CPAR");
    assert("CPCL"@.len() == 4);
    assert("CPCL"@[0] == 'C');
    assert("CPCL"@[1] == 'P');
    assert("CPCL"@[2] == 'C');
    assert("ASYN"@.len() == 4);
    assert("ASYN"@[0] == 'A');
    assert("ASYN"@[1] == 'S');
    assert("ASYN"@[2] == 'Y');
    assert("PRLA"@.len() == 4);
    assert("PRLA"@[0] == 'P');
    assert("PRLA"@[1] == 'R');
    assert("PRLA"@[2] == 'L');
    assert("UPSN"@.len() == 4);
    assert("UPSN"@[0] == 'U');
    assert("UPSN"@[1] == 'P');
    assert("UPSN"@[2] == 'S');
    assert("LTL"@.len() == 3);
    assert("LTL"@[0] == 'L');
    assert("LTL"@[1] == 'T');
    assert("LTL"@[2] == 'L');
    assert("FEDX"@.len() == 4);
    assert("FEDX"@[0] == 'F');
    assert("FEDX"@[1] == 'E');
    assert("FEDX"@[2] == 'D');
    assert("LCSL"@.len() == 4);
    assert("LCSL"@[0] == 'L');
    assert("LCSL"@[1] == 'C');
    assert("LCSL"@[2] == 'S');
    assert("DHL"@.len() == 3);
    assert("DHL"@[0] == 'D');
    assert("DHL"@[1] == 'H');
    assert("DHL"@[2] == 'L');
    assert("CPAR"@.len() == 4);
    assert("CPAR"@[0] == 'C');
    assert("CPAR"@[1] == 'P');
    assert("CPAR"@[2] == 'A');
}

/// Writing a code and reading it back gives the carrier it was written for,
/// and a text that reads as a carrier is that carrier's code.
pub proof fn lemma_carrier_token_round_trip(value: CarrierCode, text: Seq<char>)
    ensures
        carrier_of(value.token_text()) == Some(value),
        carrier_of(text) is Some ==> carrier_of(text)->0.token_text() == text,
{
    match carrier_of(value.token_text()) {
        Some(other) => {
            lemma_carrier_tokens_distinct(other, value);
        },
        None => {},
    }
}

} // verus!
