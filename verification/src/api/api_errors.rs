//! The server's error-code taxonomy.
//!
//! A failure envelope carries a five-character machine code: `BE###`
//! for business errors (with an open numeric range for undocumented
//! ones), `EX###` for infrastructure errors, and `SE###` for internal
//! server errors.  Parsing and rendering round-trip; a string outside
//! the taxonomy is rejected as unsupported, never a crash.

use vstd::prelude::*;

use crate::strutil::digit_val;
use crate::strutil::is_digit_char;
use crate::strutil::lemma_pad3_val;
use crate::strutil::pad3;
use crate::strutil::pad3_str;

verus! {

/// A machine-readable error code reported by the server.
#[derive(Clone, Copy, Debug, PartialEq, Eq, Structural)]
pub enum XtbErrorCode {
    /// Invalid price
    BE001,
    /// Invalid StopLoss or TakeProfit
    BE002,
    /// Invalid volume
    BE003,
    /// Login disabled
    BE004,
    /// Invalid login or password
    BE005,
    /// Market for instrument is closed
    BE006,
    /// Mismatched parameters
    BE007,
    /// Modification is denied
    BE008,
    /// Not enough money on account to perform trade
    BE009,
    /// Off quotes
    BE010,
    /// Opposite positions prohibited
    BE011,
    /// Short positions prohibited
    BE012,
    /// Price has changed
    BE013,
    /// Request too frequent
    BE014,
    /// Too many trade requests
    BE016,
    /// Too many trade requests
    BE017,
    /// Trading on instrument disabled
    BE018,
    /// Trading timeout
    BE019,
    /// Symbol does not exist for given account
    BE094,
    /// Account cannot trade on given symbol
    BE095,
    /// Pending order cannot be closed; it must be deleted
    BE096,
    /// Cannot close already closed order
    BE097,
    /// No such transaction
    BE098,
    /// Unknown instrument symbol
    BE101,
    /// Unknown transaction type
    BE102,
    /// User is not logged
    BE103,
    /// Method does not exist
    BE104,
    /// Incorrect period given
    BE105,
    /// Missing data
    BE106,
    /// Incorrect command format
    BE110,
    /// Symbol does not exist
    BE115,
    /// Symbol does not exist
    BE116,
    /// Invalid token
    BE117,
    /// User already logged
    BE118,
    /// Session timed out
    BE200,
    /// Internal error
    BE000,
    /// Invalid parameters
    EX000,
    /// Internal error
    EX001,
    /// Internal error
    EX002,
    /// Internal error, request timed out
    EX003,
    /// Login credentials are incorrect or this login is not allowed here
    EX004,
    /// Internal error, system overloaded
    EX005,
    /// No access
    EX006,
    /// Invalid login or password; this pair is blocked for ten minutes
    EX007,
    /// Connection limit reached
    EX008,
    /// Data limit potentially exceeded; narrow the request range
    EX009,
    /// This login is on the black list
    EX010,
    /// Not allowed to execute this command
    EX011,
    /// `BE020`-`BE037` and `BE099`: other business error
    OtherError(u8),
    /// `SE###`: internal server error
    InternalServerError(u16),
}

/// Failure to read an error code from its text.
#[derive(Clone, Debug, PartialEq, Eq)]
pub enum XtbErrorCodeError {
    UnsupportedErrorCode(String),
}

/// The fixed `BE` code for a numeric suffix, if one is enumerated.
pub open spec fn spec_be_fixed(n: int) -> Option<XtbErrorCode> {
    if n < 0 {
        None
    } else if n == 1 {
        Some(XtbErrorCode::BE001)
    } else if n == 2 {
        Some(XtbErrorCode::BE002)
    } else if n == 3 {
        Some(XtbErrorCode::BE003)
    } else if n == 4 {
        Some(XtbErrorCode::BE004)
    } else if n == 5 {
        Some(XtbErrorCode::BE005)
    } else if n == 6 {
        Some(XtbErrorCode::BE006)
    } else if n == 7 {
        Some(XtbErrorCode::BE007)
    } else if n == 8 {
        Some(XtbErrorCode::BE008)
    } else if n == 9 {
        Some(XtbErrorCode::BE009)
    } else if n == 10 {
        Some(XtbErrorCode::BE010)
    } else if n == 11 {
        Some(XtbErrorCode::BE011)
    } else if n == 12 {
        Some(XtbErrorCode::BE012)
    } else if n == 13 {
        Some(XtbErrorCode::BE013)
    } else if n == 14 {
        Some(XtbErrorCode::BE014)
    } else if n == 16 {
        Some(XtbErrorCode::BE016)
    } else if n == 17 {
        Some(XtbErrorCode::BE017)
    } else if n == 18 {
        Some(XtbErrorCode::BE018)
    } else if n == 19 {
        Some(XtbErrorCode::BE019)
    } else if n == 94 {
        Some(XtbErrorCode::BE094)
    } else if n == 95 {
        Some(XtbErrorCode::BE095)
    } else if n == 96 {
        Some(XtbErrorCode::BE096)
    } else if n == 97 {
        Some(XtbErrorCode::BE097)
    } else if n == 98 {
        Some(XtbErrorCode::BE098)
    } else if n == 101 {
        Some(XtbErrorCode::BE101)
    } else if n == 102 {
        Some(XtbErrorCode::BE102)
    } else if n == 103 {
        Some(XtbErrorCode::BE103)
    } else if n == 104 {
        Some(XtbErrorCode::BE104)
    } else if n == 105 {
        Some(XtbErrorCode::BE105)
    } else if n == 106 {
        Some(XtbErrorCode::BE106)
    } else if n == 110 {
        Some(XtbErrorCode::BE110)
    } else if n == 115 {
        Some(XtbErrorCode::BE115)
    } else if n == 116 {
        Some(XtbErrorCode::BE116)
    } else if n == 117 {
        Some(XtbErrorCode::BE117)
    } else if n == 118 {
        Some(XtbErrorCode::BE118)
    } else if n == 200 {
        Some(XtbErrorCode::BE200)
    } else if n == 0 {
        Some(XtbErrorCode::BE000)
    } else {
        None
    }
}

/// The fixed `EX` code for a numeric suffix, if one is enumerated.
pub open spec fn spec_ex_fixed(n: int) -> Option<XtbErrorCode> {
    if n < 0 {
        None
    } else if n == 0 {
        Some(XtbErrorCode::EX000)
    } else if n == 1 {
        Some(XtbErrorCode::EX001)
    } else if n == 2 {
        Some(XtbErrorCode::EX002)
    } else if n == 3 {
        Some(XtbErrorCode::EX003)
    } else if n == 4 {
        Some(XtbErrorCode::EX004)
    } else if n == 5 {
        Some(XtbErrorCode::EX005)
    } else if n == 6 {
        Some(XtbErrorCode::EX006)
    } else if n == 7 {
        Some(XtbErrorCode::EX007)
    } else if n == 8 {
        Some(XtbErrorCode::EX008)
    } else if n == 9 {
        Some(XtbErrorCode::EX009)
    } else if n == 10 {
        Some(XtbErrorCode::EX010)
    } else if n == 11 {
        Some(XtbErrorCode::EX011)
    } else {
        None
    }
}

/// The code that a five-character text parses to, if any.
pub open spec fn spec_parse_code(s: Seq<char>) -> Option<XtbErrorCode> {
    if s.len() == 5 && is_digit_char(s[2]) && is_digit_char(s[3]) && is_digit_char(s[4]) {
        let n = digit_val(s[2]) * 100 + digit_val(s[3]) * 10 + digit_val(s[4]);
        if s[0] == 'B' && s[1] == 'E' {
            if spec_be_fixed(n as int) is Some {
                spec_be_fixed(n as int)
            } else if 20 <= n <= 37 || n == 99 {
                Some(XtbErrorCode::OtherError(n as u8))
            } else {
                None
            }
        } else if s[0] == 'E' && s[1] == 'X' {
            spec_ex_fixed(n as int)
        } else if s[0] == 'S' && s[1] == 'E' {
            Some(XtbErrorCode::InternalServerError(n as u16))
        } else {
            None
        }
    } else {
        None
    }
}

/// The text that a code renders to.
pub open spec fn spec_render_code(c: XtbErrorCode) -> Seq<char> {
    match c {
        XtbErrorCode::BE001 => "BE001"@,
        XtbErrorCode::BE002 => "BE002"@,
        XtbErrorCode::BE003 => "BE003"@,
        XtbErrorCode::BE004 => "BE004"@,
        XtbErrorCode::BE005 => "BE005"@,
        XtbErrorCode::BE006 => "BE006"@,
        XtbErrorCode::BE007 => "BE007"@,
        XtbErrorCode::BE008 => "BE008"@,
        XtbErrorCode::BE009 => "BE009"@,
        XtbErrorCode::BE010 => "BE010"@,
        XtbErrorCode::BE011 => "BE011"@,
        XtbErrorCode::BE012 => "BE012"@,
        XtbErrorCode::BE013 => "BE013"@,
        XtbErrorCode::BE014 => "BE014"@,
        XtbErrorCode::BE016 => "BE016"@,
        XtbErrorCode::BE017 => "BE017"@,
        XtbErrorCode::BE018 => "BE018"@,
        XtbErrorCode::BE019 => "BE019"@,
        XtbErrorCode::BE094 => "BE094"@,
        XtbErrorCode::BE095 => "BE095"@,
        XtbErrorCode::BE096 => "BE096"@,
        XtbErrorCode::BE097 => "BE097"@,
        XtbErrorCode::BE098 => "BE098"@,
        XtbErrorCode::BE101 => "BE101"@,
        XtbErrorCode::BE102 => "BE102"@,
        XtbErrorCode::BE103 => "BE103"@,
        XtbErrorCode::BE104 => "BE104"@,
        XtbErrorCode::BE105 => "BE105"@,
        XtbErrorCode::BE106 => "BE106"@,
        XtbErrorCode::BE110 => "BE110"@,
        XtbErrorCode::BE115 => "BE115"@,
        XtbErrorCode::BE116 => "BE116"@,
        XtbErrorCode::BE117 => "BE117"@,
        XtbErrorCode::BE118 => "BE118"@,
        XtbErrorCode::BE200 => "BE200"@,
        XtbErrorCode::BE000 => "BE000"@,
        XtbErrorCode::EX000 => "EX000"@,
        XtbErrorCode::EX001 => "EX001"@,
        XtbErrorCode::EX002 => "EX002"@,
        XtbErrorCode::EX003 => "EX003"@,
        XtbErrorCode::EX004 => "EX004"@,
        XtbErrorCode::EX005 => "EX005"@,
        XtbErrorCode::EX006 => "EX006"@,
        XtbErrorCode::EX007 => "EX007"@,
        XtbErrorCode::EX008 => "EX008"@,
        XtbErrorCode::EX009 => "EX009"@,
        XtbErrorCode::EX010 => "EX010"@,
        XtbErrorCode::EX011 => "EX011"@,
        XtbErrorCode::OtherError(n) => "BE"@ + pad3(n as nat),
        XtbErrorCode::InternalServerError(n) => "SE"@ + pad3(n as nat),
    }
}

/// The open-range text accepted by `parse_other_error`: `BE0` and two
/// digits.
pub open spec fn spec_parse_other(s: Seq<char>) -> Option<XtbErrorCode> {
    if s.len() == 5 && s[0] == 'B' && s[1] == 'E' && s[2] == '0' && is_digit_char(s[3])
        && is_digit_char(s[4]) {
        Some(XtbErrorCode::OtherError((digit_val(s[3]) * 10 + digit_val(s[4])) as u8))
    } else {
        None
    }
}

/// The open-range text accepted by `parse_se_error`: `SE` and three
/// digits.
pub open spec fn spec_parse_se(s: Seq<char>) -> Option<XtbErrorCode> {
    if s.len() == 5 && s[0] == 'S' && s[1] == 'E' && is_digit_char(s[2]) && is_digit_char(s[3])
        && is_digit_char(s[4]) {
        Some(
            XtbErrorCode::InternalServerError(
                (digit_val(s[2]) * 100 + digit_val(s[3]) * 10 + digit_val(s[4])) as u16,
            ),
        )
    } else {
        None
    }
}

fn digit_of(c: char) -> (r: Option<u8>)
    ensures
        r == (if is_digit_char(c) {
            Some(digit_val(c) as u8)
        } else {
            None::<u8>
        }),
{
    let u = c as u32;
    if 48 <= u && u <= 57 {
        Some((u - 48) as u8)
    } else {
        None
    }
}

fn be_fixed(n: u16) -> (r: Option<XtbErrorCode>)
    ensures
        r == spec_be_fixed(n as int),
{
    match n {
        1 => Some(XtbErrorCode::BE001),
        2 => Some(XtbErrorCode::BE002),
        3 => Some(XtbErrorCode::BE003),
        4 => Some(XtbErrorCode::BE004),
        5 => Some(XtbErrorCode::BE005),
        6 => Some(XtbErrorCode::BE006),
        7 => Some(XtbErrorCode::BE007),
        8 => Some(XtbErrorCode::BE008),
        9 => Some(XtbErrorCode::BE009),
        10 => Some(XtbErrorCode::BE010),
        11 => Some(XtbErrorCode::BE011),
        12 => Some(XtbErrorCode::BE012),
        13 => Some(XtbErrorCode::BE013),
        14 => Some(XtbErrorCode::BE014),
        16 => Some(XtbErrorCode::BE016),
        17 => Some(XtbErrorCode::BE017),
        18 => Some(XtbErrorCode::BE018),
        19 => Some(XtbErrorCode::BE019),
        94 => Some(XtbErrorCode::BE094),
        95 => Some(XtbErrorCode::BE095),
        96 => Some(XtbErrorCode::BE096),
        97 => Some(XtbErrorCode::BE097),
        98 => Some(XtbErrorCode::BE098),
        101 => Some(XtbErrorCode::BE101),
        102 => Some(XtbErrorCode::BE102),
        103 => Some(XtbErrorCode::BE103),
        104 => Some(XtbErrorCode::BE104),
        105 => Some(XtbErrorCode::BE105),
        106 => Some(XtbErrorCode::BE106),
        110 => Some(XtbErrorCode::BE110),
        115 => Some(XtbErrorCode::BE115),
        116 => Some(XtbErrorCode::BE116),
        117 => Some(XtbErrorCode::BE117),
        118 => Some(XtbErrorCode::BE118),
        200 => Some(XtbErrorCode::BE200),
        0 => Some(XtbErrorCode::BE000),
        _ => None,
    }
}

fn ex_fixed(n: u16) -> (r: Option<XtbErrorCode>)
    ensures
        r == spec_ex_fixed(n as int),
{
    match n {
        0 => Some(XtbErrorCode::EX000),
        1 => Some(XtbErrorCode::EX001),
        2 => Some(XtbErrorCode::EX002),
        3 => Some(XtbErrorCode::EX003),
        4 => Some(XtbErrorCode::EX004),
        5 => Some(XtbErrorCode::EX005),
        6 => Some(XtbErrorCode::EX006),
        7 => Some(XtbErrorCode::EX007),
        8 => Some(XtbErrorCode::EX008),
        9 => Some(XtbErrorCode::EX009),
        10 => Some(XtbErrorCode::EX010),
        11 => Some(XtbErrorCode::EX011),
        _ => None,
    }
}

impl XtbErrorCode {
    /// Read a code from its five-character text; anything else is
    /// unsupported.
    pub fn from_str(s: &str) -> (r: Result<XtbErrorCode, XtbErrorCodeError>)
        ensures
            match r {
                Ok(c) => spec_parse_code(s@) == Some(c),
                Err(XtbErrorCodeError::UnsupportedErrorCode(m)) => spec_parse_code(s@) is None
                    && m@ == s@,
            },
    {
        let len = s.unicode_len();
        if len != 5 {
            return Err(XtbErrorCodeError::UnsupportedErrorCode(s.to_owned()));
        }
        let c0 = s.get_char(0);
        let c1 = s.get_char(1);
        let d2 = digit_of(s.get_char(2));
        let d3 = digit_of(s.get_char(3));
        let d4 = digit_of(s.get_char(4));
        let (a, b, c) = match (d2, d3, d4) {
            (Some(a), Some(b), Some(c)) => (a, b, c),
            _ => {
                return Err(XtbErrorCodeError::UnsupportedErrorCode(s.to_owned()));
            },
        };
        let n: u16 = (a as u16) * 100 + (b as u16) * 10 + (c as u16);
        if c0 == 'B' && c1 == 'E' {
            match be_fixed(n) {
                Some(code) => Ok(code),
                None => {
                    if (20 <= n && n <= 37) || n == 99 {
                        Ok(XtbErrorCode::OtherError(n as u8))
                    } else {
                        Err(XtbErrorCodeError::UnsupportedErrorCode(s.to_owned()))
                    }
                },
            }
        } else if c0 == 'E' && c1 == 'X' {
            match ex_fixed(n) {
                Some(code) => Ok(code),
                None => Err(XtbErrorCodeError::UnsupportedErrorCode(s.to_owned())),
            }
        } else if c0 == 'S' && c1 == 'E' {
            Ok(XtbErrorCode::InternalServerError(n))
        } else {
            Err(XtbErrorCodeError::UnsupportedErrorCode(s.to_owned()))
        }
    }

    /// The five-character text of a code.
    pub fn to_code_string(&self) -> (r: String)
        ensures
            r@ == spec_render_code(*self),
    {
        match self {
            XtbErrorCode::BE001 => "BE001".to_owned(),
            XtbErrorCode::BE002 => "BE002".to_owned(),
            XtbErrorCode::BE003 => "BE003".to_owned(),
            XtbErrorCode::BE004 => "BE004".to_owned(),
            XtbErrorCode::BE005 => "BE005".to_owned(),
            XtbErrorCode::BE006 => "BE006".to_owned(),
            XtbErrorCode::BE007 => "BE007".to_owned(),
            XtbErrorCode::BE008 => "BE008".to_owned(),
            XtbErrorCode::BE009 => "BE009".to_owned(),
            XtbErrorCode::BE010 => "BE010".to_owned(),
            XtbErrorCode::BE011 => "BE011".to_owned(),
            XtbErrorCode::BE012 => "BE012".to_owned(),
            XtbErrorCode::BE013 => "BE013".to_owned(),
            XtbErrorCode::BE014 => "BE014".to_owned(),
            XtbErrorCode::BE016 => "BE016".to_owned(),
            XtbErrorCode::BE017 => "BE017".to_owned(),
            XtbErrorCode::BE018 => "BE018".to_owned(),
            XtbErrorCode::BE019 => "BE019".to_owned(),
            XtbErrorCode::BE094 => "BE094".to_owned(),
            XtbErrorCode::BE095 => "BE095".to_owned(),
            XtbErrorCode::BE096 => "BE096".to_owned(),
            XtbErrorCode::BE097 => "BE097".to_owned(),
            XtbErrorCode::BE098 => "BE098".to_owned(),
            XtbErrorCode::BE101 => "BE101".to_owned(),
            XtbErrorCode::BE102 => "BE102".to_owned(),
            XtbErrorCode::BE103 => "BE103".to_owned(),
            XtbErrorCode::BE104 => "BE104".to_owned(),
            XtbErrorCode::BE105 => "BE105".to_owned(),
            XtbErrorCode::BE106 => "BE106".to_owned(),
            XtbErrorCode::BE110 => "BE110".to_owned(),
            XtbErrorCode::BE115 => "BE115".to_owned(),
            XtbErrorCode::BE116 => "BE116".to_owned(),
            XtbErrorCode::BE117 => "BE117".to_owned(),
            XtbErrorCode::BE118 => "BE118".to_owned(),
            XtbErrorCode::BE200 => "BE200".to_owned(),
            XtbErrorCode::BE000 => "BE000".to_owned(),
            XtbErrorCode::EX000 => "EX000".to_owned(),
            XtbErrorCode::EX001 => "EX001".to_owned(),
            XtbErrorCode::EX002 => "EX002".to_owned(),
            XtbErrorCode::EX003 => "EX003".to_owned(),
            XtbErrorCode::EX004 => "EX004".to_owned(),
            XtbErrorCode::EX005 => "EX005".to_owned(),
            XtbErrorCode::EX006 => "EX006".to_owned(),
            XtbErrorCode::EX007 => "EX007".to_owned(),
            XtbErrorCode::EX008 => "EX008".to_owned(),
            XtbErrorCode::EX009 => "EX009".to_owned(),
            XtbErrorCode::EX010 => "EX010".to_owned(),
            XtbErrorCode::EX011 => "EX011".to_owned(),
            XtbErrorCode::OtherError(c) => {
                let mut r = "BE".to_owned();
                r.append(pad3_str(*c as u16).as_str());
                r
            },
            XtbErrorCode::InternalServerError(c) => {
                let mut r = "SE".to_owned();
                r.append(pad3_str(*c).as_str());
                r
            },
        }
    }
}

impl Default for XtbErrorCode {
    /// The first business error code.
    fn default() -> (r: XtbErrorCode)
        ensures
            r == XtbErrorCode::BE001,
    {
        XtbErrorCode::BE001
    }
}

/// Read an open-range business error (`BE0` and two digits).
pub fn parse_other_error(err_str: &str) -> (r: Result<XtbErrorCode, XtbErrorCodeError>)
    ensures
        match r {
            Ok(c) => spec_parse_other(err_str@) == Some(c),
            Err(XtbErrorCodeError::UnsupportedErrorCode(m)) => spec_parse_other(err_str@) is None
                && m@ == err_str@,
        },
{
    let len = err_str.unicode_len();
    if len != 5 {
        return Err(XtbErrorCodeError::UnsupportedErrorCode(err_str.to_owned()));
    }
    let ok_prefix = err_str.get_char(0) == 'B' && err_str.get_char(1) == 'E' && err_str.get_char(2)
        == '0';
    if !ok_prefix {
        return Err(XtbErrorCodeError::UnsupportedErrorCode(err_str.to_owned()));
    }
    match (digit_of(err_str.get_char(3)), digit_of(err_str.get_char(4))) {
        (Some(a), Some(b)) => Ok(XtbErrorCode::OtherError(a * 10 + b)),
        _ => Err(XtbErrorCodeError::UnsupportedErrorCode(err_str.to_owned())),
    }
}

/// Read an open-range internal server error (`SE` and three digits).
pub fn parse_se_error(err_str: &str) -> (r: Result<XtbErrorCode, XtbErrorCodeError>)
    ensures
        match r {
            Ok(c) => spec_parse_se(err_str@) == Some(c),
            Err(XtbErrorCodeError::UnsupportedErrorCode(m)) => spec_parse_se(err_str@) is None
                && m@ == err_str@,
        },
{
    let len = err_str.unicode_len();
    if len != 5 {
        return Err(XtbErrorCodeError::UnsupportedErrorCode(err_str.to_owned()));
    }
    if !(err_str.get_char(0) == 'S' && err_str.get_char(1) == 'E') {
        return Err(XtbErrorCodeError::UnsupportedErrorCode(err_str.to_owned()));
    }
    match (digit_of(err_str.get_char(2)), digit_of(err_str.get_char(3)), digit_of(
        err_str.get_char(4),
    )) {
        (Some(a), Some(b), Some(c)) => Ok(
            XtbErrorCode::InternalServerError((a as u16) * 100 + (b as u16) * 10 + (c as u16)),
        ),
        _ => Err(XtbErrorCodeError::UnsupportedErrorCode(err_str.to_owned())),
    }
}

/// The codes whose rendering stays inside the taxonomy: every fixed
/// code, an open business error in `BE020`-`BE037` or `BE099`, and an
/// internal server error up to `SE999`.
pub open spec fn code_in_range(c: XtbErrorCode) -> bool {
    match c {
        XtbErrorCode::OtherError(n) => 20 <= n <= 37 || n == 99,
        XtbErrorCode::InternalServerError(n) => n <= 999,
        _ => true,
    }
}

/// Rendering a code and parsing the text gives the code back, for
/// every code in range: the numeric value of an open-range code
/// round-trips exactly.
pub proof fn lemma_code_round_trip(c: XtbErrorCode)
    requires
        code_in_range(c),
    ensures
        spec_parse_code(spec_render_code(c)) == Some(c),
{
    match c {
        XtbErrorCode::BE001 => {
            reveal_strlit("BE001");
            assert(spec_parse_code("BE001"@) == Some(XtbErrorCode::BE001));
        },
        XtbErrorCode::BE002 => {
            reveal_strlit("BE002");
            assert(spec_parse_code("BE002"@) == Some(XtbErrorCode::BE002));
        },
        XtbErrorCode::BE003 => {
            reveal_strlit("BE003");
            assert(spec_parse_code("BE003"@) == Some(XtbErrorCode::BE003));
        },
        XtbErrorCode::BE004 => {
            reveal_strlit("BE004");
            assert(spec_parse_code("BE004"@) == Some(XtbErrorCode::BE004));
        },
        XtbErrorCode::BE005 => {
            reveal_strlit("BE005");
            assert(spec_parse_code("BE005"@) == Some(XtbErrorCode::BE005));
        },
        XtbErrorCode::BE006 => {
            reveal_strlit("BE006");
            assert(spec_parse_code("BE006"@) == Some(XtbErrorCode::BE006));
        },
        XtbErrorCode::BE007 => {
            reveal_strlit("BE007");
            assert(spec_parse_code("BE007"@) == Some(XtbErrorCode::BE007));
        },
        XtbErrorCode::BE008 => {
            reveal_strlit("BE008");
            assert(spec_parse_code("BE008"@) == Some(XtbErrorCode::BE008));
        },
        XtbErrorCode::BE009 => {
            reveal_strlit("BE009");
            assert(spec_parse_code("BE009"@) == Some(XtbErrorCode::BE009));
        },
        XtbErrorCode::BE010 => {
            reveal_strlit("BE010");
            assert(spec_parse_code("BE010"@) == Some(XtbErrorCode::BE010));
        },
        XtbErrorCode::BE011 => {
            reveal_strlit("BE011");
            assert(spec_parse_code("BE011"@) == Some(XtbErrorCode::BE011));
        },
        XtbErrorCode::BE012 => {
            reveal_strlit("BE012");
            assert(spec_parse_code("BE012"@) == Some(XtbErrorCode::BE012));
        },
        XtbErrorCode::BE013 => {
            reveal_strlit("BE013");
            assert(spec_parse_code("BE013"@) == Some(XtbErrorCode::BE013));
        },
        XtbErrorCode::BE014 => {
            reveal_strlit("BE014");
            assert(spec_parse_code("BE014"@) == Some(XtbErrorCode::BE014));
        },
        XtbErrorCode::BE016 => {
            reveal_strlit("BE016");
            assert(spec_parse_code("BE016"@) == Some(XtbErrorCode::BE016));
        },
        XtbErrorCode::BE017 => {
            reveal_strlit("BE017");
            assert(spec_parse_code("BE017"@) == Some(XtbErrorCode::BE017));
        },
        XtbErrorCode::BE018 => {
            reveal_strlit("BE018");
            assert(spec_parse_code("BE018"@) == Some(XtbErrorCode::BE018));
        },
        XtbErrorCode::BE019 => {
            reveal_strlit("BE019");
            assert(spec_parse_code("BE019"@) == Some(XtbErrorCode::BE019));
        },
        XtbErrorCode::BE094 => {
            reveal_strlit("BE094");
            assert(spec_parse_code("BE094"@) == Some(XtbErrorCode::BE094));
        },
        XtbErrorCode::BE095 => {
            reveal_strlit("BE095");
            assert(spec_parse_code("BE095"@) == Some(XtbErrorCode::BE095));
        },
        XtbErrorCode::BE096 => {
            reveal_strlit("BE096");
            assert(spec_parse_code("BE096"@) == Some(XtbErrorCode::BE096));
        },
        XtbErrorCode::BE097 => {
            reveal_strlit("BE097");
            assert(spec_parse_code("BE097"@) == Some(XtbErrorCode::BE097));
        },
        XtbErrorCode::BE098 => {
            reveal_strlit("BE098");
            assert(spec_parse_code("BE098"@) == Some(XtbErrorCode::BE098));
        },
        XtbErrorCode::BE101 => {
            reveal_strlit("BE101");
            assert(spec_parse_code("BE101"@) == Some(XtbErrorCode::BE101));
        },
        XtbErrorCode::BE102 => {
            reveal_strlit("BE102");
            assert(spec_parse_code("BE102"@) == Some(XtbErrorCode::BE102));
        },
        XtbErrorCode::BE103 => {
            reveal_strlit("BE103");
            assert(spec_parse_code("BE103"@) == Some(XtbErrorCode::BE103));
        },
        XtbErrorCode::BE104 => {
            reveal_strlit("BE104");
            assert(spec_parse_code("BE104"@) == Some(XtbErrorCode::BE104));
        },
        XtbErrorCode::BE105 => {
            reveal_strlit("BE105");
            assert(spec_parse_code("BE105"@) == Some(XtbErrorCode::BE105));
        },
        XtbErrorCode::BE106 => {
            reveal_strlit("BE106");
            assert(spec_parse_code("BE106"@) == Some(XtbErrorCode::BE106));
        },
        XtbErrorCode::BE110 => {
            reveal_strlit("BE110");
            assert(spec_parse_code("BE110"@) == Some(XtbErrorCode::BE110));
        },
        XtbErrorCode::BE115 => {
            reveal_strlit("BE115");
            assert(spec_parse_code("BE115"@) == Some(XtbErrorCode::BE115));
        },
        XtbErrorCode::BE116 => {
            reveal_strlit("BE116");
            assert(spec_parse_code("BE116"@) == Some(XtbErrorCode::BE116));
        },
        XtbErrorCode::BE117 => {
            reveal_strlit("BE117");
            assert(spec_parse_code("BE117"@) == Some(XtbErrorCode::BE117));
        },
        XtbErrorCode::BE118 => {
            reveal_strlit("BE118");
            assert(spec_parse_code("BE118"@) == Some(XtbErrorCode::BE118));
        },
        XtbErrorCode::BE200 => {
            reveal_strlit("BE200");
            assert(spec_parse_code("BE200"@) == Some(XtbErrorCode::BE200));
        },
        XtbErrorCode::BE000 => {
            reveal_strlit("BE000");
            assert(spec_parse_code("BE000"@) == Some(XtbErrorCode::BE000));
        },
        XtbErrorCode::EX000 => {
            reveal_strlit("EX000");
            assert(spec_parse_code("EX000"@) == Some(XtbErrorCode::EX000));
        },
        XtbErrorCode::EX001 => {
            reveal_strlit("EX001");
            assert(spec_parse_code("EX001"@) == Some(XtbErrorCode::EX001));
        },
        XtbErrorCode::EX002 => {
            reveal_strlit("EX002");
            assert(spec_parse_code("EX002"@) == Some(XtbErrorCode::EX002));
        },
        XtbErrorCode::EX003 => {
            reveal_strlit("EX003");
            assert(spec_parse_code("EX003"@) == Some(XtbErrorCode::EX003));
        },
        XtbErrorCode::EX004 => {
            reveal_strlit("EX004");
            assert(spec_parse_code("EX004"@) == Some(XtbErrorCode::EX004));
        },
        XtbErrorCode::EX005 => {
            reveal_strlit("EX005");
            assert(spec_parse_code("EX005"@) == Some(XtbErrorCode::EX005));
        },
        XtbErrorCode::EX006 => {
            reveal_strlit("EX006");
            assert(spec_parse_code("EX006"@) == Some(XtbErrorCode::EX006));
        },
        XtbErrorCode::EX007 => {
            reveal_strlit("EX007");
            assert(spec_parse_code("EX007"@) == Some(XtbErrorCode::EX007));
        },
        XtbErrorCode::EX008 => {
            reveal_strlit("EX008");
            assert(spec_parse_code("EX008"@) == Some(XtbErrorCode::EX008));
        },
        XtbErrorCode::EX009 => {
            reveal_strlit("EX009");
            assert(spec_parse_code("EX009"@) == Some(XtbErrorCode::EX009));
        },
        XtbErrorCode::EX010 => {
            reveal_strlit("EX010");
            assert(spec_parse_code("EX010"@) == Some(XtbErrorCode::EX010));
        },
        XtbErrorCode::EX011 => {
            reveal_strlit("EX011");
            assert(spec_parse_code("EX011"@) == Some(XtbErrorCode::EX011));
        },
        XtbErrorCode::OtherError(n) => {
            reveal_strlit("BE");
            lemma_pad3_val(n as nat);
            let s = spec_render_code(c);
            assert(s.len() == 5);
            assert(s[2] == pad3(n as nat)[0] && s[3] == pad3(n as nat)[1] && s[4] == pad3(
                n as nat,
            )[2]);
            assert(digit_val(s[2]) * 100 + digit_val(s[3]) * 10 + digit_val(s[4]) == n as nat);
            assert(spec_parse_code(s) == Some(c));
        },
        XtbErrorCode::InternalServerError(n) => {
            reveal_strlit("SE");
            lemma_pad3_val(n as nat);
            let s = spec_render_code(c);
            assert(s.len() == 5);
            assert(s[2] == pad3(n as nat)[0] && s[3] == pad3(n as nat)[1] && s[4] == pad3(
                n as nat,
            )[2]);
            assert(digit_val(s[2]) * 100 + digit_val(s[3]) * 10 + digit_val(s[4]) == n as nat);
            assert(spec_parse_code(s) == Some(c));
        },
    }
}

/// Whether a text is one of the fixed enumerated codes.
pub open spec fn is_fixed_code_text(s: Seq<char>) -> bool {
    s == "BE001"@ || s == "BE002"@ || s == "BE003"@ || s == "BE004"@ || s == "BE005"@ || s == "BE006"@ || s == "BE007"@ || s == "BE008"@ || s == "BE009"@ || s == "BE010"@ || s == "BE011"@ || s == "BE012"@ || s == "BE013"@ || s == "BE014"@ || s == "BE016"@ || s == "BE017"@ || s == "BE018"@ || s == "BE019"@ || s == "BE094"@ || s == "BE095"@ || s == "BE096"@ || s == "BE097"@ || s == "BE098"@ || s == "BE101"@ || s == "BE102"@ || s == "BE103"@ || s == "BE104"@ || s == "BE105"@ || s == "BE106"@ || s == "BE110"@ || s == "BE115"@ || s == "BE116"@ || s == "BE117"@ || s == "BE118"@ || s == "BE200"@ || s == "BE000"@ || s == "EX000"@ || s == "EX001"@ || s == "EX002"@ || s == "EX003"@ || s == "EX004"@ || s == "EX005"@ || s == "EX006"@ || s == "EX007"@ || s == "EX008"@ || s == "EX009"@ || s == "EX010"@ || s == "EX011"@
}

/// Parsing a fixed enumerated code text and rendering the code gives
/// the text back.
pub proof fn lemma_fixed_code_text_round_trip(s: Seq<char>)
    requires
        is_fixed_code_text(s),
    ensures
        spec_parse_code(s) is Some,
        spec_render_code(spec_parse_code(s)->Some_0) == s,
{
    if s == "BE001"@ {
        reveal_strlit("BE001");
        assert(spec_parse_code(s) == Some(XtbErrorCode::BE001));
        lemma_code_round_trip(XtbErrorCode::BE001);
    }
    if s == "BE002"@ {
        reveal_strlit("BE002");
        assert(spec_parse_code(s) == Some(XtbErrorCode::BE002));
        lemma_code_round_trip(XtbErrorCode::BE002);
    }
    if s == "BE003"@ {
        reveal_strlit("BE003");
        assert(spec_parse_code(s) == Some(XtbErrorCode::BE003));
        lemma_code_round_trip(XtbErrorCode::BE003);
    }
    if s == "BE004"@ {
        reveal_strlit("BE004");
        assert(spec_parse_code(s) == Some(XtbErrorCode::BE004));
        lemma_code_round_trip(XtbErrorCode::BE004);
    }
    if s == "BE005"@ {
        reveal_strlit("BE005");
        assert(spec_parse_code(s) == Some(XtbErrorCode::BE005));
        lemma_code_round_trip(XtbErrorCode::BE005);
    }
    if s == "BE006"@ {
        reveal_strlit("BE006");
        assert(spec_parse_code(s) == Some(XtbErrorCode::BE006));
        lemma_code_round_trip(XtbErrorCode::BE006);
    }
    if s == "BE007"@ {
        reveal_strlit("BE007");
        assert(spec_parse_code(s) == Some(XtbErrorCode::BE007));
        lemma_code_round_trip(XtbErrorCode::BE007);
    }
    if s == "BE008"@ {
        reveal_strlit("BE008");
        assert(spec_parse_code(s) == Some(XtbErrorCode::BE008));
        lemma_code_round_trip(XtbErrorCode::BE008);
    }
    if s == "BE009"@ {
        reveal_strlit("BE009");
        assert(spec_parse_code(s) == Some(XtbErrorCode::BE009));
        lemma_code_round_trip(XtbErrorCode::BE009);
    }
    if s == "BE010"@ {
        reveal_strlit("BE010");
        assert(spec_parse_code(s) == Some(XtbErrorCode::BE010));
        lemma_code_round_trip(XtbErrorCode::BE010);
    }
    if s == "BE011"@ {
        reveal_strlit("BE011");
        assert(spec_parse_code(s) == Some(XtbErrorCode::BE011));
        lemma_code_round_trip(XtbErrorCode::BE011);
    }
    if s == "BE012"@ {
        reveal_strlit("BE012");
        assert(spec_parse_code(s) == Some(XtbErrorCode::BE012));
        lemma_code_round_trip(XtbErrorCode::BE012);
    }
    if s == "BE013"@ {
        reveal_strlit("BE013");
        assert(spec_parse_code(s) == Some(XtbErrorCode::BE013));
        lemma_code_round_trip(XtbErrorCode::BE013);
    }
    if s == "BE014"@ {
        reveal_strlit("BE014");
        assert(spec_parse_code(s) == Some(XtbErrorCode::BE014));
        lemma_code_round_trip(XtbErrorCode::BE014);
    }
    if s == "BE016"@ {
        reveal_strlit("BE016");
        assert(spec_parse_code(s) == Some(XtbErrorCode::BE016));
        lemma_code_round_trip(XtbErrorCode::BE016);
    }
    if s == "BE017"@ {
        reveal_strlit("BE017");
        assert(spec_parse_code(s) == Some(XtbErrorCode::BE017));
        lemma_code_round_trip(XtbErrorCode::BE017);
    }
    if s == "BE018"@ {
        reveal_strlit("BE018");
        assert(spec_parse_code(s) == Some(XtbErrorCode::BE018));
        lemma_code_round_trip(XtbErrorCode::BE018);
    }
    if s == "BE019"@ {
        reveal_strlit("BE019");
        assert(spec_parse_code(s) == Some(XtbErrorCode::BE019));
        lemma_code_round_trip(XtbErrorCode::BE019);
    }
    if s == "BE094"@ {
        reveal_strlit("BE094");
        assert(spec_parse_code(s) == Some(XtbErrorCode::BE094));
        lemma_code_round_trip(XtbErrorCode::BE094);
    }
    if s == "BE095"@ {
        reveal_strlit("BE095");
        assert(spec_parse_code(s) == Some(XtbErrorCode::BE095));
        lemma_code_round_trip(XtbErrorCode::BE095);
    }
    if s == "BE096"@ {
        reveal_strlit("BE096");
        assert(spec_parse_code(s) == Some(XtbErrorCode::BE096));
        lemma_code_round_trip(XtbErrorCode::BE096);
    }
    if s == "BE097"@ {
        reveal_strlit("BE097");
        assert(spec_parse_code(s) == Some(XtbErrorCode::BE097));
        lemma_code_round_trip(XtbErrorCode::BE097);
    }
    if s == "BE098"@ {
        reveal_strlit("BE098");
        assert(spec_parse_code(s) == Some(XtbErrorCode::BE098));
        lemma_code_round_trip(XtbErrorCode::BE098);
    }
    if s == "BE101"@ {
        reveal_strlit("BE101");
        assert(spec_parse_code(s) == Some(XtbErrorCode::BE101));
        lemma_code_round_trip(XtbErrorCode::BE101);
    }
    if s == "BE102"@ {
        reveal_strlit("BE102");
        assert(spec_parse_code(s) == Some(XtbErrorCode::BE102));
        lemma_code_round_trip(XtbErrorCode::BE102);
    }
    if s == "BE103"@ {
        reveal_strlit("BE103");
        assert(spec_parse_code(s) == Some(XtbErrorCode::BE103));
        lemma_code_round_trip(XtbErrorCode::BE103);
    }
    if s == "BE104"@ {
        reveal_strlit("BE104");
        assert(spec_parse_code(s) == Some(XtbErrorCode::BE104));
        lemma_code_round_trip(XtbErrorCode::BE104);
    }
    if s == "BE105"@ {
        reveal_strlit("BE105");
        assert(spec_parse_code(s) == Some(XtbErrorCode::BE105));
        lemma_code_round_trip(XtbErrorCode::BE105);
    }
    if s == "BE106"@ {
        reveal_strlit("BE106");
        assert(spec_parse_code(s) == Some(XtbErrorCode::BE106));
        lemma_code_round_trip(XtbErrorCode::BE106);
    }
    if s == "BE110"@ {
        reveal_strlit("BE110");
        assert(spec_parse_code(s) == Some(XtbErrorCode::BE110));
        lemma_code_round_trip(XtbErrorCode::BE110);
    }
    if s == "BE115"@ {
        reveal_strlit("BE115");
        assert(spec_parse_code(s) == Some(XtbErrorCode::BE115));
        lemma_code_round_trip(XtbErrorCode::BE115);
    }
    if s == "BE116"@ {
        reveal_strlit("BE116");
        assert(spec_parse_code(s) == Some(XtbErrorCode::BE116));
        lemma_code_round_trip(XtbErrorCode::BE116);
    }
    if s == "BE117"@ {
        reveal_strlit("BE117");
        assert(spec_parse_code(s) == Some(XtbErrorCode::BE117));
        lemma_code_round_trip(XtbErrorCode::BE117);
    }
    if s == "BE118"@ {
        reveal_strlit("BE118");
        assert(spec_parse_code(s) == Some(XtbErrorCode::BE118));
        lemma_code_round_trip(XtbErrorCode::BE118);
    }
    if s == "BE200"@ {
        reveal_strlit("BE200");
        assert(spec_parse_code(s) == Some(XtbErrorCode::BE200));
        lemma_code_round_trip(XtbErrorCode::BE200);
    }
    if s == "BE000"@ {
        reveal_strlit("BE000");
        assert(spec_parse_code(s) == Some(XtbErrorCode::BE000));
        lemma_code_round_trip(XtbErrorCode::BE000);
    }
    if s == "EX000"@ {
        reveal_strlit("EX000");
        assert(spec_parse_code(s) == Some(XtbErrorCode::EX000));
        lemma_code_round_trip(XtbErrorCode::EX000);
    }
    if s == "EX001"@ {
        reveal_strlit("EX001");
        assert(spec_parse_code(s) == Some(XtbErrorCode::EX001));
        lemma_code_round_trip(XtbErrorCode::EX001);
    }
    if s == "EX002"@ {
        reveal_strlit("EX002");
        assert(spec_parse_code(s) == Some(XtbErrorCode::EX002));
        lemma_code_round_trip(XtbErrorCode::EX002);
    }
    if s == "EX003"@ {
        reveal_strlit("EX003");
        assert(spec_parse_code(s) == Some(XtbErrorCode::EX003));
        lemma_code_round_trip(XtbErrorCode::EX003);
    }
    if s == "EX004"@ {
        reveal_strlit("EX004");
        assert(spec_parse_code(s) == Some(XtbErrorCode::EX004));
        lemma_code_round_trip(XtbErrorCode::EX004);
    }
    if s == "EX005"@ {
        reveal_strlit("EX005");
        assert(spec_parse_code(s) == Some(XtbErrorCode::EX005));
        lemma_code_round_trip(XtbErrorCode::EX005);
    }
    if s == "EX006"@ {
        reveal_strlit("EX006");
        assert(spec_parse_code(s) == Some(XtbErrorCode::EX006));
        lemma_code_round_trip(XtbErrorCode::EX006);
    }
    if s == "EX007"@ {
        reveal_strlit("EX007");
        assert(spec_parse_code(s) == Some(XtbErrorCode::EX007));
        lemma_code_round_trip(XtbErrorCode::EX007);
    }
    if s == "EX008"@ {
        reveal_strlit("EX008");
        assert(spec_parse_code(s) == Some(XtbErrorCode::EX008));
        lemma_code_round_trip(XtbErrorCode::EX008);
    }
    if s == "EX009"@ {
        reveal_strlit("EX009");
        assert(spec_parse_code(s) == Some(XtbErrorCode::EX009));
        lemma_code_round_trip(XtbErrorCode::EX009);
    }
    if s == "EX010"@ {
        reveal_strlit("EX010");
        assert(spec_parse_code(s) == Some(XtbErrorCode::EX010));
        lemma_code_round_trip(XtbErrorCode::EX010);
    }
    if s == "EX011"@ {
        reveal_strlit("EX011");
        assert(spec_parse_code(s) == Some(XtbErrorCode::EX011));
        lemma_code_round_trip(XtbErrorCode::EX011);
    }
}

} // verus!
