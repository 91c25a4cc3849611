//! Typed errors of the hub, their numeric codes and the wire form of a code.
//!
//! Every failure of a hub operation is a [`HubError`]. Each error has a fixed
//! numeric code ([`HubErrorCode`]), which travels to clients as four bytes in
//! big-endian order, and a status category under which the control plane
//! reports it.

use vstd::prelude::*;
use vstd::string::*;

verus! {

/// The numeric identity of an error, as clients see it.
#[derive(Debug, Clone, Copy, PartialEq, Eq, Structural)]
pub enum HubErrorCode {
    TarNotExist,
    FileNotExist,
    DirNotExist,
    ConfigNotExist,
    ConfigureError,
    DirHasExist,
    IOError,
    OtherError,
    HashNotMatch,
    ResourceNotFound,
    InvalidPath,
    UnsupportedApi,
    MalformedApiResponse,
    UnSupportedErrorCode,
    ProstDecodeError,
    ProstEncodeError,
}

/// The transport-level category under which an error is reported.
#[derive(Debug, Clone, Copy, PartialEq, Eq, Structural)]
pub enum StatusCategory {
    NotFound,
    InvalidArgument,
    Unimplemented,
    Internal,
}

/// A failure of a hub operation.
///
/// Errors that originate outside the hub (the operating system, a codec)
/// carry the text of the error that caused them.
#[derive(Debug)]
pub enum HubError {
    TarNotExist(String),
    FileNotExist(String),
    DirNotExist(String),
    ConfigNotExist,
    ConfigureError(String),
    DirHasExist(String),
    IOError(String),
    OtherError(String),
    /// The announced hash, then the digest that the bytes really have.
    HashNotMatch(String, String),
    ResourceNotFound,
    InvalidPath(String),
    UnsupportedApi(String),
    MalformedApiResponse(String),
    UnSupportedErrorCode,
    ProstDecodeError(String),
    ProstEncodeError(String),
}

/// What a [`HubError`] is in contracts: the same variants over sequences of characters.
pub ghost enum HubErrorView {
    TarNotExist(Seq<char>),
    FileNotExist(Seq<char>),
    DirNotExist(Seq<char>),
    ConfigNotExist,
    ConfigureError(Seq<char>),
    DirHasExist(Seq<char>),
    IOError(Seq<char>),
    OtherError(Seq<char>),
    HashNotMatch(Seq<char>, Seq<char>),
    ResourceNotFound,
    InvalidPath(Seq<char>),
    UnsupportedApi(Seq<char>),
    MalformedApiResponse(Seq<char>),
    UnSupportedErrorCode,
    ProstDecodeError(Seq<char>),
    ProstEncodeError(Seq<char>),
}

/// An error as the control plane reports it: category, text and the code's four bytes.
#[derive(Debug, Clone)]
pub struct ErrorStatus {
    pub category: StatusCategory,
    pub message: String,
    pub details: Vec<u8>,
}

/// An [`ErrorStatus`] in contracts.
pub ghost struct ErrorStatusView {
    pub category: StatusCategory,
    pub message: Seq<char>,
    pub details: Seq<u8>,
}

impl View for ErrorStatus {
    type V = ErrorStatusView;

    open spec fn view(&self) -> ErrorStatusView {
        ErrorStatusView {
            category: self.category,
            message: self.message@,
            details: self.details@,
        }
    }
}

impl View for HubError {
    type V = HubErrorView;

    open spec fn view(&self) -> HubErrorView {
        match self {
            HubError::TarNotExist(s) => HubErrorView::TarNotExist(s@),
            HubError::FileNotExist(s) => HubErrorView::FileNotExist(s@),
            HubError::DirNotExist(s) => HubErrorView::DirNotExist(s@),
            HubError::ConfigNotExist => HubErrorView::ConfigNotExist,
            HubError::ConfigureError(s) => HubErrorView::ConfigureError(s@),
            HubError::DirHasExist(s) => HubErrorView::DirHasExist(s@),
            HubError::IOError(s) => HubErrorView::IOError(s@),
            HubError::OtherError(s) => HubErrorView::OtherError(s@),
            HubError::HashNotMatch(e, f) => HubErrorView::HashNotMatch(e@, f@),
            HubError::ResourceNotFound => HubErrorView::ResourceNotFound,
            HubError::InvalidPath(s) => HubErrorView::InvalidPath(s@),
            HubError::UnsupportedApi(s) => HubErrorView::UnsupportedApi(s@),
            HubError::MalformedApiResponse(s) => HubErrorView::MalformedApiResponse(s@),
            HubError::UnSupportedErrorCode => HubErrorView::UnSupportedErrorCode,
            HubError::ProstDecodeError(s) => HubErrorView::ProstDecodeError(s@),
            HubError::ProstEncodeError(s) => HubErrorView::ProstEncodeError(s@),
        }
    }
}

/// What the result of a hub operation is in contracts: the view of its
/// value, or the view of its error.
pub open spec fn outcome<T: View>(r: Result<T, HubError>) -> Result<T::V, HubErrorView> {
    match r {
        Ok(value) => Ok(value@),
        Err(e) => Err(e@),
    }
}

impl HubErrorCode {
    /// The number of the code.
    pub open spec fn number(self) -> int {
        match self {
            HubErrorCode::TarNotExist => 1000,
            HubErrorCode::FileNotExist => 1001,
            HubErrorCode::DirNotExist => 1002,
            HubErrorCode::ConfigNotExist => 1003,
            HubErrorCode::ConfigureError => 1004,
            HubErrorCode::DirHasExist => 1005,
            HubErrorCode::IOError => 1006,
            HubErrorCode::OtherError => 1007,
            HubErrorCode::HashNotMatch => 1008,
            HubErrorCode::ResourceNotFound => 1009,
            HubErrorCode::InvalidPath => 1010,
            HubErrorCode::UnsupportedApi => 1100,
            HubErrorCode::MalformedApiResponse => 1101,
            HubErrorCode::UnSupportedErrorCode => 1102,
            HubErrorCode::ProstDecodeError => 1200,
            HubErrorCode::ProstEncodeError => 1201,
        }
    }

    /// The code that has the given number, if there is one.
    pub open spec fn of_number(n: int) -> Option<HubErrorCode> {
        if n == 1000 {
            Some(HubErrorCode::TarNotExist)
        } else if n == 1001 {
            Some(HubErrorCode::FileNotExist)
        } else if n == 1002 {
            Some(HubErrorCode::DirNotExist)
        } else if n == 1003 {
            Some(HubErrorCode::ConfigNotExist)
        } else if n == 1004 {
            Some(HubErrorCode::ConfigureError)
        } else if n == 1005 {
            Some(HubErrorCode::DirHasExist)
        } else if n == 1006 {
            Some(HubErrorCode::IOError)
        } else if n == 1007 {
            Some(HubErrorCode::OtherError)
        } else if n == 1008 {
            Some(HubErrorCode::HashNotMatch)
        } else if n == 1009 {
            Some(HubErrorCode::ResourceNotFound)
        } else if n == 1010 {
            Some(HubErrorCode::InvalidPath)
        } else if n == 1100 {
            Some(HubErrorCode::UnsupportedApi)
        } else if n == 1101 {
            Some(HubErrorCode::MalformedApiResponse)
        } else if n == 1102 {
            Some(HubErrorCode::UnSupportedErrorCode)
        } else if n == 1200 {
            Some(HubErrorCode::ProstDecodeError)
        } else if n == 1201 {
            Some(HubErrorCode::ProstEncodeError)
        } else {
            None
        }
    }

    /// What four bytes decode to: the code whose number they spell in
    /// big-endian order, and nothing for any other input.
    pub open spec fn decoded(bytes: Seq<u8>) -> Option<HubErrorCode> {
        if bytes.len() == 4 {
            Self::of_number(be_value(bytes))
        } else {
            None
        }
    }

    /// The number of this code.
    pub fn code(&self) -> (c: i32)
        ensures
            c == self.number(),
    {
        match self {
            HubErrorCode::TarNotExist => 1000,
            HubErrorCode::FileNotExist => 1001,
            HubErrorCode::DirNotExist => 1002,
            HubErrorCode::ConfigNotExist => 1003,
            HubErrorCode::ConfigureError => 1004,
            HubErrorCode::DirHasExist => 1005,
            HubErrorCode::IOError => 1006,
            HubErrorCode::OtherError => 1007,
            HubErrorCode::HashNotMatch => 1008,
            HubErrorCode::ResourceNotFound => 1009,
            HubErrorCode::InvalidPath => 1010,
            HubErrorCode::UnsupportedApi => 1100,
            HubErrorCode::MalformedApiResponse => 1101,
            HubErrorCode::UnSupportedErrorCode => 1102,
            HubErrorCode::ProstDecodeError => 1200,
            HubErrorCode::ProstEncodeError => 1201,
        }
    }

    /// The code with the given number.
    pub fn from_code(code: i32) -> (r: Option<HubErrorCode>)
        ensures
            r == Self::of_number(code as int),
    {
        match code {
            1000 => Some(HubErrorCode::TarNotExist),
            1001 => Some(HubErrorCode::FileNotExist),
            1002 => Some(HubErrorCode::DirNotExist),
            1003 => Some(HubErrorCode::ConfigNotExist),
            1004 => Some(HubErrorCode::ConfigureError),
            1005 => Some(HubErrorCode::DirHasExist),
            1006 => Some(HubErrorCode::IOError),
            1007 => Some(HubErrorCode::OtherError),
            1008 => Some(HubErrorCode::HashNotMatch),
            1009 => Some(HubErrorCode::ResourceNotFound),
            1010 => Some(HubErrorCode::InvalidPath),
            1100 => Some(HubErrorCode::UnsupportedApi),
            1101 => Some(HubErrorCode::MalformedApiResponse),
            1102 => Some(HubErrorCode::UnSupportedErrorCode),
            1200 => Some(HubErrorCode::ProstDecodeError),
            1201 => Some(HubErrorCode::ProstEncodeError),
            _ => None,
        }
    }

    /// Decodes the details of an error response.
    ///
    /// Succeeds exactly on four bytes that spell the number of a code; every
    /// other input is an unsupported error code.
    pub fn from_bytes(bytes: &[u8]) -> (r: Result<HubErrorCode, HubError>)
        ensures
            match Self::decoded(bytes@) {
                Some(c) => r == Ok::<HubErrorCode, HubError>(c),
                None => r matches Err(e) && e@ == HubErrorView::UnSupportedErrorCode,
            },
    {
        if bytes.len() != 4 {
            return Err(HubError::UnSupportedErrorCode);
        }
        let code = i32_from_be_bytes(bytes);
        match Self::from_code(code) {
            Some(c) => Ok(c),
            None => Err(HubError::UnSupportedErrorCode),
        }
    }

    /// The category under which an error with this code is reported.
    pub open spec fn spec_category(self) -> StatusCategory {
        match self {
            HubErrorCode::TarNotExist
            | HubErrorCode::FileNotExist
            | HubErrorCode::DirNotExist
            | HubErrorCode::ConfigNotExist
            | HubErrorCode::ResourceNotFound => StatusCategory::NotFound,
            HubErrorCode::ConfigureError
            | HubErrorCode::DirHasExist
            | HubErrorCode::HashNotMatch
            | HubErrorCode::InvalidPath => StatusCategory::InvalidArgument,
            HubErrorCode::UnsupportedApi => StatusCategory::Unimplemented,
            HubErrorCode::IOError
            | HubErrorCode::OtherError
            | HubErrorCode::MalformedApiResponse
            | HubErrorCode::UnSupportedErrorCode
            | HubErrorCode::ProstDecodeError
            | HubErrorCode::ProstEncodeError => StatusCategory::Internal,
        }
    }

    /// The category under which an error with this code is reported.
    pub fn category(&self) -> (c: StatusCategory)
        ensures
            c == self.spec_category(),
    {
        match self {
            HubErrorCode::TarNotExist
            | HubErrorCode::FileNotExist
            | HubErrorCode::DirNotExist
            | HubErrorCode::ConfigNotExist
            | HubErrorCode::ResourceNotFound => StatusCategory::NotFound,
            HubErrorCode::ConfigureError
            | HubErrorCode::DirHasExist
            | HubErrorCode::HashNotMatch
            | HubErrorCode::InvalidPath => StatusCategory::InvalidArgument,
            HubErrorCode::UnsupportedApi => StatusCategory::Unimplemented,
            HubErrorCode::IOError
            | HubErrorCode::OtherError
            | HubErrorCode::MalformedApiResponse
            | HubErrorCode::UnSupportedErrorCode
            | HubErrorCode::ProstDecodeError
            | HubErrorCode::ProstEncodeError => StatusCategory::Internal,
        }
    }
}

/// The value of a 32-bit signed integer read as unsigned (two's complement).
pub open spec fn unsigned_of(code: int) -> int {
    if code >= 0 {
        code
    } else {
        code + 0x1_0000_0000
    }
}

/// The four bytes of a 32-bit signed integer, most significant first.
pub open spec fn be_bytes(code: i32) -> Seq<u8> {
    let u = unsigned_of(code as int);
    seq![
        (u / 0x100_0000) as u8,
        ((u / 0x1_0000) % 0x100) as u8,
        ((u / 0x100) % 0x100) as u8,
        (u % 0x100) as u8,
    ]
}

/// The 32-bit signed integer that four bytes spell, most significant first.
pub open spec fn be_value(bytes: Seq<u8>) -> int
    recommends
        bytes.len() == 4,
{
    let u = bytes[0] * 0x100_0000 + bytes[1] * 0x1_0000 + bytes[2] * 0x100 + bytes[3];
    if u >= 0x8000_0000 {
        u - 0x1_0000_0000
    } else {
        u
    }
}

/// The four bytes of `code` in big-endian order.
pub fn i32_to_vec_u8(code: i32) -> (bytes: Vec<u8>)
    ensures
        bytes@ == be_bytes(code),
{
    let u: u64 = if code >= 0 {
        code as u64
    } else {
        (code as i64 + 0x1_0000_0000) as u64
    };
    let mut bytes: Vec<u8> = Vec::new();
    bytes.push((u / 0x100_0000) as u8);
    bytes.push(((u / 0x1_0000) % 0x100) as u8);
    bytes.push(((u / 0x100) % 0x100) as u8);
    bytes.push((u % 0x100) as u8);
    assert(bytes@ =~= be_bytes(code));
    bytes
}

/// The integer that four bytes spell in big-endian order.
pub fn i32_from_be_bytes(bytes: &[u8]) -> (code: i32)
    requires
        bytes@.len() == 4,
    ensures
        code == be_value(bytes@),
{
    let u: u64 = bytes[0] as u64 * 0x100_0000 + bytes[1] as u64 * 0x1_0000 + bytes[2] as u64
        * 0x100 + bytes[3] as u64;
    if u >= 0x8000_0000 {
        (u as i64 - 0x1_0000_0000) as i32
    } else {
        u as i32
    }
}

/// A number below 2^32 is the sum of its four base-256 digits.
proof fn lemma_digits_of(u: int)
    requires
        0 <= u < 0x1_0000_0000,
    ensures
        u == (u / 0x100_0000) * 0x100_0000 + ((u / 0x1_0000) % 0x100) * 0x1_0000 + ((u / 0x100)
            % 0x100) * 0x100 + u % 0x100,
        0 <= u / 0x100_0000 < 0x100,
{
    let q1 = u / 0x100;
    let q2 = q1 / 0x100;
    let q3 = q2 / 0x100;
    assert(u == q1 * 0x100 + u % 0x100);
    assert(q1 == q2 * 0x100 + q1 % 0x100);
    assert(q2 == q3 * 0x100 + q2 % 0x100);
    assert(u / 0x1_0000 == q2);
    assert(u / 0x100_0000 == q3);
}

/// Four base-256 digits are the digits of their sum.
proof fn lemma_digits_back(b0: int, b1: int, b2: int, b3: int)
    requires
        0 <= b0 < 0x100,
        0 <= b1 < 0x100,
        0 <= b2 < 0x100,
        0 <= b3 < 0x100,
    ensures
        ({
            let u = b0 * 0x100_0000 + b1 * 0x1_0000 + b2 * 0x100 + b3;
            &&& 0 <= u < 0x1_0000_0000
            &&& u / 0x100_0000 == b0
            &&& (u / 0x1_0000) % 0x100 == b1
            &&& (u / 0x100) % 0x100 == b2
            &&& u % 0x100 == b3
        }),
{
    let u = b0 * 0x100_0000 + b1 * 0x1_0000 + b2 * 0x100 + b3;
    assert(u / 0x100 == b0 * 0x1_0000 + b1 * 0x100 + b2);
    assert(u / 0x1_0000 == b0 * 0x100 + b1);
}

/// Encoding a number and decoding the bytes gives the number back.
pub proof fn lemma_be_round_trip(code: i32)
    ensures
        be_bytes(code).len() == 4,
        be_value(be_bytes(code)) == code,
{
    lemma_digits_of(unsigned_of(code as int));
}

/// Every four bytes are the encoding of the number that they decode to.
pub proof fn lemma_be_bytes_of_value(bytes: Seq<u8>)
    requires
        bytes.len() == 4,
    ensures
        i32::MIN <= be_value(bytes) <= i32::MAX,
        be_bytes(be_value(bytes) as i32) == bytes,
{
    lemma_digits_back(bytes[0] as int, bytes[1] as int, bytes[2] as int, bytes[3] as int);
    assert(be_bytes(be_value(bytes) as i32) =~= bytes);
}

/// Every code is found again from its number, and from the bytes of its number.
pub proof fn lemma_code_round_trip(c: HubErrorCode)
    ensures
        HubErrorCode::of_number(c.number()) == Some(c),
        HubErrorCode::decoded(be_bytes(c.number() as i32)) == Some(c),
{
    lemma_be_round_trip(c.number() as i32);
}

/// A number belongs to at most one code: whatever decodes to a code has that code's number.
pub proof fn lemma_number_of_decoded(n: int)
    ensures
        HubErrorCode::of_number(n) matches Some(c) ==> c.number() == n,
{
}

impl HubErrorView {
    /// The code of the error.
    pub open spec fn code(self) -> HubErrorCode {
        match self {
            HubErrorView::TarNotExist(_) => HubErrorCode::TarNotExist,
            HubErrorView::FileNotExist(_) => HubErrorCode::FileNotExist,
            HubErrorView::DirNotExist(_) => HubErrorCode::DirNotExist,
            HubErrorView::ConfigNotExist => HubErrorCode::ConfigNotExist,
            HubErrorView::ConfigureError(_) => HubErrorCode::ConfigureError,
            HubErrorView::DirHasExist(_) => HubErrorCode::DirHasExist,
            HubErrorView::IOError(_) => HubErrorCode::IOError,
            HubErrorView::OtherError(_) => HubErrorCode::OtherError,
            HubErrorView::HashNotMatch(_, _) => HubErrorCode::HashNotMatch,
            HubErrorView::ResourceNotFound => HubErrorCode::ResourceNotFound,
            HubErrorView::InvalidPath(_) => HubErrorCode::InvalidPath,
            HubErrorView::UnsupportedApi(_) => HubErrorCode::UnsupportedApi,
            HubErrorView::MalformedApiResponse(_) => HubErrorCode::MalformedApiResponse,
            HubErrorView::UnSupportedErrorCode => HubErrorCode::UnSupportedErrorCode,
            HubErrorView::ProstDecodeError(_) => HubErrorCode::ProstDecodeError,
            HubErrorView::ProstEncodeError(_) => HubErrorCode::ProstEncodeError,
        }
    }

    /// The text of the error.
    pub open spec fn text(self) -> Seq<char> {
        match self {
            HubErrorView::TarNotExist(hash) => "Tar package with hash '"@ + hash + "' not exist"@,
            HubErrorView::FileNotExist(file) => "File '"@ + file + "' not exist"@,
            HubErrorView::DirNotExist(dir) => "Directory '"@ + dir + "' not exist"@,
            HubErrorView::ConfigNotExist => "Can not found the config"@,
            HubErrorView::ConfigureError(msg) => "Configure error: "@ + msg,
            HubErrorView::DirHasExist(dir) => "Directory '"@ + dir + "' has exist"@,
            HubErrorView::IOError(msg) => msg,
            HubErrorView::OtherError(msg) => msg,
            HubErrorView::HashNotMatch(expected, found) =>
                "The hash of the file does not match the hash in the request, expected: "@
                    + expected + ",  found: "@ + found,
            HubErrorView::ResourceNotFound => "Resource not found"@,
            HubErrorView::InvalidPath(path) => "Invalid path: "@ + path,
            HubErrorView::UnsupportedApi(api) => "Unsupported API: "@ + api,
            HubErrorView::MalformedApiResponse(api) => "Malformed API response for "@ + api,
            HubErrorView::UnSupportedErrorCode => "Unsupported error code"@,
            HubErrorView::ProstDecodeError(msg) => "Protobuf decode error: "@ + msg,
            HubErrorView::ProstEncodeError(msg) => "Protobuf decode error: "@ + msg,
        }
    }

    /// The error as the control plane reports it: the category of its code,
    /// its text, and the four bytes of its code as details.
    pub open spec fn status(self) -> ErrorStatusView {
        ErrorStatusView {
            category: self.code().spec_category(),
            message: self.status_text(),
            details: be_bytes(self.code().number() as i32),
        }
    }

    /// The text under which the control plane reports the error. It names the
    /// origin of an error that came from outside the hub.
    pub open spec fn status_text(self) -> Seq<char> {
        match self {
            HubErrorView::IOError(msg) => "IO error: "@ + msg,
            HubErrorView::OtherError(msg) => "Other error: "@ + msg,
            HubErrorView::ProstEncodeError(msg) => "Protobuf encode error: "@ + msg,
            _ => self.text(),
        }
    }
}

/// `prefix`, then `middle`, then `suffix`.
fn surround(prefix: &str, middle: &str, suffix: &str) -> (s: String)
    ensures
        s@ == prefix@ + middle@ + suffix@,
{
    let mut s = String::from_str(prefix);
    s.append(middle);
    s.append(suffix);
    s
}

impl HubError {
    /// The code of this error.
    pub fn error_code(&self) -> (c: HubErrorCode)
        ensures
            c == self@.code(),
    {
        match self {
            HubError::TarNotExist(_) => HubErrorCode::TarNotExist,
            HubError::FileNotExist(_) => HubErrorCode::FileNotExist,
            HubError::DirNotExist(_) => HubErrorCode::DirNotExist,
            HubError::ConfigNotExist => HubErrorCode::ConfigNotExist,
            HubError::ConfigureError(_) => HubErrorCode::ConfigureError,
            HubError::DirHasExist(_) => HubErrorCode::DirHasExist,
            HubError::IOError(_) => HubErrorCode::IOError,
            HubError::OtherError(_) => HubErrorCode::OtherError,
            HubError::HashNotMatch(_, _) => HubErrorCode::HashNotMatch,
            HubError::ResourceNotFound => HubErrorCode::ResourceNotFound,
            HubError::InvalidPath(_) => HubErrorCode::InvalidPath,
            HubError::UnsupportedApi(_) => HubErrorCode::UnsupportedApi,
            HubError::MalformedApiResponse(_) => HubErrorCode::MalformedApiResponse,
            HubError::UnSupportedErrorCode => HubErrorCode::UnSupportedErrorCode,
            HubError::ProstDecodeError(_) => HubErrorCode::ProstDecodeError,
            HubError::ProstEncodeError(_) => HubErrorCode::ProstEncodeError,
        }
    }

    /// The number of this error's code.
    pub fn code(&self) -> (c: i32)
        ensures
            c == self@.code().number(),
    {
        self.error_code().code()
    }

    /// The four bytes that carry this error's code to a client.
    pub fn code_bytes(&self) -> (bytes: Vec<u8>)
        ensures
            bytes@ == be_bytes(self@.code().number() as i32),
            HubErrorCode::decoded(bytes@) == Some(self@.code()),
    {
        proof {
            lemma_code_round_trip(self@.code());
        }
        i32_to_vec_u8(self.code())
    }

    /// The text of this error.
    pub fn to_string(&self) -> (s: String)
        ensures
            s@ == self@.text(),
    {
        match self {
            HubError::TarNotExist(hash) => surround(
                "Tar package with hash '",
                hash.as_str(),
                "' not exist",
            ),
            HubError::FileNotExist(file) => surround("File '", file.as_str(), "' not exist"),
            HubError::DirNotExist(dir) => surround("Directory '", dir.as_str(), "' not exist"),
            HubError::ConfigNotExist => String::from_str("Can not found the config"),
            HubError::ConfigureError(msg) => {
                let s = surround("Configure error: ", msg.as_str(), "");
                proof {
                    reveal_strlit("");
                    assert(s@ =~= "Configure error: "@ + msg@);
                }
                s
            },
            HubError::DirHasExist(dir) => surround("Directory '", dir.as_str(), "' has exist"),
            HubError::IOError(msg) => msg.clone(),
            HubError::OtherError(msg) => msg.clone(),
            HubError::HashNotMatch(expected, found) => {
                let mut s = surround(
                    "The hash of the file does not match the hash in the request, expected: ",
                    expected.as_str(),
                    ",  found: ",
                );
                s.append(found.as_str());
                s
            },
            HubError::ResourceNotFound => String::from_str("Resource not found"),
            HubError::InvalidPath(path) => {
                let s = surround("Invalid path: ", path.as_str(), "");
                proof {
                    reveal_strlit("");
                    assert(s@ =~= "Invalid path: "@ + path@);
                }
                s
            },
            HubError::UnsupportedApi(api) => {
                let s = surround("Unsupported API: ", api.as_str(), "");
                proof {
                    reveal_strlit("");
                    assert(s@ =~= "Unsupported API: "@ + api@);
                }
                s
            },
            HubError::MalformedApiResponse(api) => {
                let s = surround("Malformed API response for ", api.as_str(), "");
                proof {
                    reveal_strlit("");
                    assert(s@ =~= "Malformed API response for "@ + api@);
                }
                s
            },
            HubError::UnSupportedErrorCode => String::from_str("Unsupported error code"),
            HubError::ProstDecodeError(msg) | HubError::ProstEncodeError(msg) => {
                let s = surround("Protobuf decode error: ", msg.as_str(), "");
                proof {
                    reveal_strlit("");
                    assert(s@ =~= "Protobuf decode error: "@ + msg@);
                }
                s
            },
        }
    }

    /// The text under which the control plane reports this error.
    pub fn status_message(&self) -> (s: String)
        ensures
            s@ == self@.status_text(),
    {
        match self {
            HubError::IOError(msg) => {
                let s = surround("IO error: ", msg.as_str(), "");
                proof {
                    reveal_strlit("");
                    assert(s@ =~= "IO error: "@ + msg@);
                }
                s
            },
            HubError::OtherError(msg) => {
                let s = surround("Other error: ", msg.as_str(), "");
                proof {
                    reveal_strlit("");
                    assert(s@ =~= "Other error: "@ + msg@);
                }
                s
            },
            HubError::ProstEncodeError(msg) => {
                let s = surround("Protobuf encode error: ", msg.as_str(), "");
                proof {
                    reveal_strlit("");
                    assert(s@ =~= "Protobuf encode error: "@ + msg@);
                }
                s
            },
            _ => self.to_string(),
        }
    }

    /// This error as the control plane reports it: the category of its code,
    /// its text, and the four bytes of its code as details.
    pub fn status(&self) -> (st: ErrorStatus)
        ensures
            st@ == self@.status(),
            HubErrorCode::decoded(st.details@) == Some(self@.code()),
    {
        ErrorStatus {
            category: self.error_code().category(),
            message: self.status_message(),
            details: self.code_bytes(),
        }
    }
}

impl<'a> From<&'a HubError> for i32 {
    /// The number of the error's code.
    fn from(err: &'a HubError) -> (code: i32) {
        err.code()
    }
}

impl<'a> vstd::std_specs::convert::FromSpecImpl<&'a HubError> for i32 {
    open spec fn obeys_from_spec() -> bool {
        true
    }

    open spec fn from_spec(err: &'a HubError) -> i32 {
        err@.code().number() as i32
    }
}

impl<'a> TryFrom<&'a [u8]> for HubErrorCode {
    type Error = HubError;

    /// Decodes the details of an error response: see [`HubErrorCode::from_bytes`].
    fn try_from(bytes: &'a [u8]) -> (r: Result<Self, HubError>) {
        HubErrorCode::from_bytes(bytes)
    }
}

impl<'a> vstd::std_specs::convert::TryFromSpecImpl<&'a [u8]> for HubErrorCode {
    open spec fn obeys_try_from_spec() -> bool {
        true
    }

    open spec fn try_from_spec(bytes: &'a [u8]) -> Result<Self, HubError> {
        match HubErrorCode::decoded(bytes@) {
            Some(c) => Ok(c),
            None => Err(HubError::UnSupportedErrorCode),
        }
    }
}

} // verus!
