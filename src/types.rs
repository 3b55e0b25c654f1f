use vstd::prelude::*;

use crate::error::BillingError;

verus! {

/// An account or contract identity, held as its textual form.
#[derive(Clone, Debug, PartialEq, Eq)]
pub struct Address {
    pub id: String,
}

impl View for Address {
    type V = Seq<char>;

    open spec fn view(&self) -> Seq<char> {
        self.id@
    }
}

impl Address {
    pub fn new(id: String) -> (r: Address)
        ensures
            r@ == id@,
    {
        Address { id }
    }

    /// Identity comparison by textual form.
    pub fn same_as(&self, other: &Address) -> (r: bool)
        ensures
            r == (self@ == other@),
    {
        self.id == other.id
    }

    pub fn duplicate(&self) -> (r: Address)
        ensures
            r == *self,
    {
        Address { id: self.id.clone() }
    }
}

/// The kinds of utility the engine bills for.
#[derive(Clone, Copy, Debug, PartialEq, Eq, Structural)]
pub enum UtilityType {
    Electricity,
    Water,
    Gas,
    Internet,
    Waste,
    PropertyTax,
    Solar,
    EVCharging,
}

/// Wire code of a utility type: 1 to 8 in declaration order.
pub open spec fn utility_code(t: UtilityType) -> u8 {
    match t {
        UtilityType::Electricity => 1,
        UtilityType::Water => 2,
        UtilityType::Gas => 3,
        UtilityType::Internet => 4,
        UtilityType::Waste => 5,
        UtilityType::PropertyTax => 6,
        UtilityType::Solar => 7,
        UtilityType::EVCharging => 8,
    }
}

pub open spec fn valid_utility_code(v: u8) -> bool {
    1 <= v <= 8
}

/// The utility type of a valid wire code.
pub open spec fn utility_type_of(v: u8) -> UtilityType {
    if v == 1 {
        UtilityType::Electricity
    } else if v == 2 {
        UtilityType::Water
    } else if v == 3 {
        UtilityType::Gas
    } else if v == 4 {
        UtilityType::Internet
    } else if v == 5 {
        UtilityType::Waste
    } else if v == 6 {
        UtilityType::PropertyTax
    } else if v == 7 {
        UtilityType::Solar
    } else {
        UtilityType::EVCharging
    }
}

pub open spec fn utility_name(t: UtilityType) -> Seq<char> {
    match t {
        UtilityType::Electricity => "electricity"@,
        UtilityType::Water => "water"@,
        UtilityType::Gas => "gas"@,
        UtilityType::Internet => "internet"@,
        UtilityType::Waste => "waste"@,
        UtilityType::PropertyTax => "property_tax"@,
        UtilityType::Solar => "solar"@,
        UtilityType::EVCharging => "ev_charging"@,
    }
}

pub open spec fn utility_unit(t: UtilityType) -> Seq<char> {
    match t {
        UtilityType::Electricity => "kWh"@,
        UtilityType::Water => "m³"@,
        UtilityType::Gas => "m³"@,
        UtilityType::Internet => "Mbps"@,
        UtilityType::Waste => "kg"@,
        UtilityType::PropertyTax => "property"@,
        UtilityType::Solar => "kWh"@,
        UtilityType::EVCharging => "kWh"@,
    }
}

/// The fee type of a valid wire code.
pub open spec fn fee_type_of(v: u8) -> FeeType {
    if v == 1 {
        FeeType::Processing
    } else if v == 2 {
        FeeType::Service
    } else if v == 3 {
        FeeType::Maintenance
    } else if v == 4 {
        FeeType::Connection
    } else if v == 5 {
        FeeType::Disconnection
    } else if v == 6 {
        FeeType::Reconnection
    } else if v == 7 {
        FeeType::Inspection
    } else {
        FeeType::Emergency
    }
}

impl UtilityType {
    /// Range-checked conversion from the wire integer.
    pub fn from_u8(value: u8) -> (r: Result<UtilityType, BillingError>)
        ensures
            valid_utility_code(value) <==> r is Ok,
            r matches Ok(t) ==> utility_code(t) == value && t == utility_type_of(value),
            r is Err ==> r == Err::<UtilityType, BillingError>(BillingError::InvalidEnum),
    {
        match value {
            1 => Ok(UtilityType::Electricity),
            2 => Ok(UtilityType::Water),
            3 => Ok(UtilityType::Gas),
            4 => Ok(UtilityType::Internet),
            5 => Ok(UtilityType::Waste),
            6 => Ok(UtilityType::PropertyTax),
            7 => Ok(UtilityType::Solar),
            8 => Ok(UtilityType::EVCharging),
            _ => Err(BillingError::InvalidEnum),
        }
    }

    pub fn to_u8(&self) -> (r: u8)
        ensures
            r == utility_code(*self),
            valid_utility_code(r),
    {
        match self {
            UtilityType::Electricity => 1,
            UtilityType::Water => 2,
            UtilityType::Gas => 3,
            UtilityType::Internet => 4,
            UtilityType::Waste => 5,
            UtilityType::PropertyTax => 6,
            UtilityType::Solar => 7,
            UtilityType::EVCharging => 8,
        }
    }

    /// Lower-case name of the utility type.
    pub fn to_string(&self) -> (r: String)
        ensures
            r@ == utility_name(*self),
    {
        match self {
            UtilityType::Electricity => String::from_str("electricity"),
            UtilityType::Water => String::from_str("water"),
            UtilityType::Gas => String::from_str("gas"),
            UtilityType::Internet => String::from_str("internet"),
            UtilityType::Waste => String::from_str("waste"),
            UtilityType::PropertyTax => String::from_str("property_tax"),
            UtilityType::Solar => String::from_str("solar"),
            UtilityType::EVCharging => String::from_str("ev_charging"),
        }
    }

    /// Unit in which consumption of this utility is measured.
    pub fn get_unit(&self) -> (r: String)
        ensures
            r@ == utility_unit(*self),
    {
        match self {
            UtilityType::Electricity => String::from_str("kWh"),
            UtilityType::Water => String::from_str("m³"),
            UtilityType::Gas => String::from_str("m³"),
            UtilityType::Internet => String::from_str("Mbps"),
            UtilityType::Waste => String::from_str("kg"),
            UtilityType::PropertyTax => String::from_str("property"),
            UtilityType::Solar => String::from_str("kWh"),
            UtilityType::EVCharging => String::from_str("kWh"),
        }
    }
}

/// The kinds of fee a provider can register.
#[derive(Clone, Copy, Debug, PartialEq, Eq, Structural)]
pub enum FeeType {
    Processing,
    Service,
    Maintenance,
    Connection,
    Disconnection,
    Reconnection,
    Inspection,
    Emergency,
}

/// Wire code of a fee type: 1 to 8 in declaration order.
pub open spec fn fee_code(t: FeeType) -> u8 {
    match t {
        FeeType::Processing => 1,
        FeeType::Service => 2,
        FeeType::Maintenance => 3,
        FeeType::Connection => 4,
        FeeType::Disconnection => 5,
        FeeType::Reconnection => 6,
        FeeType::Inspection => 7,
        FeeType::Emergency => 8,
    }
}

impl FeeType {
    /// Range-checked conversion from the wire integer.
    pub fn from_u8(value: u8) -> (r: Result<FeeType, BillingError>)
        ensures
            (1 <= value <= 8) <==> r is Ok,
            r matches Ok(t) ==> fee_code(t) == value && t == fee_type_of(value),
            r is Err ==> r == Err::<FeeType, BillingError>(BillingError::InvalidEnum),
    {
        match value {
            1 => Ok(FeeType::Processing),
            2 => Ok(FeeType::Service),
            3 => Ok(FeeType::Maintenance),
            4 => Ok(FeeType::Connection),
            5 => Ok(FeeType::Disconnection),
            6 => Ok(FeeType::Reconnection),
            7 => Ok(FeeType::Inspection),
            8 => Ok(FeeType::Emergency),
            _ => Err(BillingError::InvalidEnum),
        }
    }

    pub fn to_u8(&self) -> (r: u8)
        ensures
            r == fee_code(*self),
            1 <= r <= 8,
    {
        match self {
            FeeType::Processing => 1,
            FeeType::Service => 2,
            FeeType::Maintenance => 3,
            FeeType::Connection => 4,
            FeeType::Disconnection => 5,
            FeeType::Reconnection => 6,
            FeeType::Inspection => 7,
            FeeType::Emergency => 8,
        }
    }
}

} // verus!
