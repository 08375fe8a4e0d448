//! System-side information elements: interrogation, read and test
//! commands, and the qualifier-of-interrogation values.

#![allow(non_camel_case_types)]

use vstd::prelude::*;

verus! {

/// TI100, `C_IC_NA_1`, interrogation command.
#[derive(Debug, Clone, Copy, PartialEq, Eq)]
pub struct C_IC_NA_1 {
    pub qoi: u8,
}

/// TI102, `C_RD_NA_1`, read command.
#[derive(Debug, Clone, Copy, PartialEq, Eq)]
pub struct C_RD_NA_1 {}

/// TI104, `C_TS_NA_1`, test command, with its fixed test pattern bytes.
#[derive(Debug, Clone, Copy, PartialEq, Eq)]
pub struct C_TS_NA_1 {
    /// Expected to hold `0b1010_1010`.
    pub pat0: u8,
    /// Expected to hold `0b0101_0101`.
    pub pat1: u8,
}

/// Qualifier of interrogation: the station interrogation value and the
/// sixteen group interrogations.
#[derive(Debug, Clone, Copy, PartialEq, Eq)]
pub enum QOI {
    StationInterrogation,
    Group1,
    Group2,
    Group3,
    Group4,
    Group5,
    Group6,
    Group7,
    Group8,
    Group9,
    Group10,
    Group11,
    Group12,
    Group13,
    Group14,
    Group15,
    Group16,
}

/// The wire value of a qualifier of interrogation: station interrogation
/// is 20 and the groups follow in order.
pub open spec fn qoi_value(q: QOI) -> u8 {
    match q {
        QOI::StationInterrogation => 20,
        QOI::Group1 => 21,
        QOI::Group2 => 22,
        QOI::Group3 => 23,
        QOI::Group4 => 24,
        QOI::Group5 => 25,
        QOI::Group6 => 26,
        QOI::Group7 => 27,
        QOI::Group8 => 28,
        QOI::Group9 => 29,
        QOI::Group10 => 30,
        QOI::Group11 => 31,
        QOI::Group12 => 32,
        QOI::Group13 => 33,
        QOI::Group14 => 34,
        QOI::Group15 => 35,
        QOI::Group16 => 36,
    }
}

impl QOI {
    /// The wire value of this qualifier.
    pub fn to_u8(self) -> (r: u8)
        ensures
            r == qoi_value(self),
    {
        match self {
            QOI::StationInterrogation => 20,
            QOI::Group1 => 21,
            QOI::Group2 => 22,
            QOI::Group3 => 23,
            QOI::Group4 => 24,
            QOI::Group5 => 25,
            QOI::Group6 => 26,
            QOI::Group7 => 27,
            QOI::Group8 => 28,
            QOI::Group9 => 29,
            QOI::Group10 => 30,
            QOI::Group11 => 31,
            QOI::Group12 => 32,
            QOI::Group13 => 33,
            QOI::Group14 => 34,
            QOI::Group15 => 35,
            QOI::Group16 => 36,
        }
    }

    /// The qualifier named by a wire value; `None` outside 20..=36.
    pub fn try_from_u8(v: u8) -> (r: Option<QOI>)
        ensures
            r matches Some(q) ==> qoi_value(q) == v,
            r is Some <==> 20 <= v <= 36,
    {
        match v {
            20 => Some(QOI::StationInterrogation),
            21 => Some(QOI::Group1),
            22 => Some(QOI::Group2),
            23 => Some(QOI::Group3),
            24 => Some(QOI::Group4),
            25 => Some(QOI::Group5),
            26 => Some(QOI::Group6),
            27 => Some(QOI::Group7),
            28 => Some(QOI::Group8),
            29 => Some(QOI::Group9),
            30 => Some(QOI::Group10),
            31 => Some(QOI::Group11),
            32 => Some(QOI::Group12),
            33 => Some(QOI::Group13),
            34 => Some(QOI::Group14),
            35 => Some(QOI::Group15),
            36 => Some(QOI::Group16),
            _ => None,
        }
    }
}

impl Default for C_IC_NA_1 {
    fn default() -> (r: Self)
        ensures
            r.qoi == 0,
    {
        C_IC_NA_1 { qoi: 0 }
    }
}

impl Default for C_RD_NA_1 {
    fn default() -> (r: Self)
        ensures
            r == (C_RD_NA_1 {  }),
    {
        C_RD_NA_1 {  }
    }
}

impl Default for C_TS_NA_1 {
    fn default() -> (r: Self)
        ensures
            r.pat0 == 0 && r.pat1 == 0,
    {
        C_TS_NA_1 { pat0: 0, pat1: 0 }
    }
}

} // verus!
