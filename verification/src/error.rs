use vstd::prelude::*;

verus! {

/// A status code of the native btrfs utility layer, as its C enumeration
/// defines them, together with a catch-all for codes outside that enumeration.
#[derive(Clone, Copy, Debug, PartialEq, Eq, Hash, Structural)]
pub enum ErrorKind {
    Okay,
    StopIteration,
    NoMemory,
    InvalidArgument,
    NotBtrfs,
    NotSubvolume,
    SubvolumeNotFound,
    OpenFailed,
    RmdirFailed,
    UnlinkFailed,
    StatFailed,
    StatfsFailed,
    SearchFailed,
    InoLookupFailed,
    SubvolGetflagsFailed,
    SubvolSetflagsFailed,
    SubvolCreateFailed,
    SnapCreateFailed,
    SnapDestroyFailed,
    DefaultSubvolFailed,
    SyncFailed,
    StartSyncFailed,
    WaitSyncFailed,
    GetSubvolInfoFailed,
    GetSubvolRootrefFailed,
    InoLookupUserFailed,
    FsInfoFailed,
    Unknown(u32),
}

impl ErrorKind {
    /// The numeric code of this status in the native enumeration.
    pub open spec fn spec_code(self) -> u32 {
        match self {
            ErrorKind::Okay => 0,
            ErrorKind::StopIteration => 1,
            ErrorKind::NoMemory => 2,
            ErrorKind::InvalidArgument => 3,
            ErrorKind::NotBtrfs => 4,
            ErrorKind::NotSubvolume => 5,
            ErrorKind::SubvolumeNotFound => 6,
            ErrorKind::OpenFailed => 7,
            ErrorKind::RmdirFailed => 8,
            ErrorKind::UnlinkFailed => 9,
            ErrorKind::StatFailed => 10,
            ErrorKind::StatfsFailed => 11,
            ErrorKind::SearchFailed => 12,
            ErrorKind::InoLookupFailed => 13,
            ErrorKind::SubvolGetflagsFailed => 14,
            ErrorKind::SubvolSetflagsFailed => 15,
            ErrorKind::SubvolCreateFailed => 16,
            ErrorKind::SnapCreateFailed => 17,
            ErrorKind::SnapDestroyFailed => 18,
            ErrorKind::DefaultSubvolFailed => 19,
            ErrorKind::SyncFailed => 20,
            ErrorKind::StartSyncFailed => 21,
            ErrorKind::WaitSyncFailed => 22,
            ErrorKind::GetSubvolInfoFailed => 23,
            ErrorKind::GetSubvolRootrefFailed => 24,
            ErrorKind::InoLookupUserFailed => 25,
            ErrorKind::FsInfoFailed => 26,
            ErrorKind::Unknown(code) => code,
        }
    }

    /// Canonical form: the catch-all variant never holds a code that a named
    /// variant already covers.
    pub open spec fn wf(self) -> bool {
        self matches ErrorKind::Unknown(code) ==> code > 26
    }

    /// The status kind that a native code denotes.
    pub open spec fn spec_from_code(code: u32) -> ErrorKind {
        if code == 0 {
            ErrorKind::Okay
        } else if code == 1 {
            ErrorKind::StopIteration
        } else if code == 2 {
            ErrorKind::NoMemory
        } else if code == 3 {
            ErrorKind::InvalidArgument
        } else if code == 4 {
            ErrorKind::NotBtrfs
        } else if code == 5 {
            ErrorKind::NotSubvolume
        } else if code == 6 {
            ErrorKind::SubvolumeNotFound
        } else if code == 7 {
            ErrorKind::OpenFailed
        } else if code == 8 {
            ErrorKind::RmdirFailed
        } else if code == 9 {
            ErrorKind::UnlinkFailed
        } else if code == 10 {
            ErrorKind::StatFailed
        } else if code == 11 {
            ErrorKind::StatfsFailed
        } else if code == 12 {
            ErrorKind::SearchFailed
        } else if code == 13 {
            ErrorKind::InoLookupFailed
        } else if code == 14 {
            ErrorKind::SubvolGetflagsFailed
        } else if code == 15 {
            ErrorKind::SubvolSetflagsFailed
        } else if code == 16 {
            ErrorKind::SubvolCreateFailed
        } else if code == 17 {
            ErrorKind::SnapCreateFailed
        } else if code == 18 {
            ErrorKind::SnapDestroyFailed
        } else if code == 19 {
            ErrorKind::DefaultSubvolFailed
        } else if code == 20 {
            ErrorKind::SyncFailed
        } else if code == 21 {
            ErrorKind::StartSyncFailed
        } else if code == 22 {
            ErrorKind::WaitSyncFailed
        } else if code == 23 {
            ErrorKind::GetSubvolInfoFailed
        } else if code == 24 {
            ErrorKind::GetSubvolRootrefFailed
        } else if code == 25 {
            ErrorKind::InoLookupUserFailed
        } else if code == 26 {
            ErrorKind::FsInfoFailed
        } else {
            ErrorKind::Unknown(code)
        }
    }

    /// Returns the numeric code of this status.
    pub fn code(&self) -> (code: u32)
        ensures
            code == self.spec_code(),
    {
        match self {
            ErrorKind::Okay => 0,
            ErrorKind::StopIteration => 1,
            ErrorKind::NoMemory => 2,
            ErrorKind::InvalidArgument => 3,
            ErrorKind::NotBtrfs => 4,
            ErrorKind::NotSubvolume => 5,
            ErrorKind::SubvolumeNotFound => 6,
            ErrorKind::OpenFailed => 7,
            ErrorKind::RmdirFailed => 8,
            ErrorKind::UnlinkFailed => 9,
            ErrorKind::StatFailed => 10,
            ErrorKind::StatfsFailed => 11,
            ErrorKind::SearchFailed => 12,
            ErrorKind::InoLookupFailed => 13,
            ErrorKind::SubvolGetflagsFailed => 14,
            ErrorKind::SubvolSetflagsFailed => 15,
            ErrorKind::SubvolCreateFailed => 16,
            ErrorKind::SnapCreateFailed => 17,
            ErrorKind::SnapDestroyFailed => 18,
            ErrorKind::DefaultSubvolFailed => 19,
            ErrorKind::SyncFailed => 20,
            ErrorKind::StartSyncFailed => 21,
            ErrorKind::WaitSyncFailed => 22,
            ErrorKind::GetSubvolInfoFailed => 23,
            ErrorKind::GetSubvolRootrefFailed => 24,
            ErrorKind::InoLookupUserFailed => 25,
            ErrorKind::FsInfoFailed => 26,
            ErrorKind::Unknown(code) => *code,
        }
    }

    /// Classifies a native status code.
    pub fn from_code(code: u32) -> (kind: ErrorKind)
        ensures
            kind == ErrorKind::spec_from_code(code),
    {
        match code {
            0 => ErrorKind::Okay,
            1 => ErrorKind::StopIteration,
            2 => ErrorKind::NoMemory,
            3 => ErrorKind::InvalidArgument,
            4 => ErrorKind::NotBtrfs,
            5 => ErrorKind::NotSubvolume,
            6 => ErrorKind::SubvolumeNotFound,
            7 => ErrorKind::OpenFailed,
            8 => ErrorKind::RmdirFailed,
            9 => ErrorKind::UnlinkFailed,
            10 => ErrorKind::StatFailed,
            11 => ErrorKind::StatfsFailed,
            12 => ErrorKind::SearchFailed,
            13 => ErrorKind::InoLookupFailed,
            14 => ErrorKind::SubvolGetflagsFailed,
            15 => ErrorKind::SubvolSetflagsFailed,
            16 => ErrorKind::SubvolCreateFailed,
            17 => ErrorKind::SnapCreateFailed,
            18 => ErrorKind::SnapDestroyFailed,
            19 => ErrorKind::DefaultSubvolFailed,
            20 => ErrorKind::SyncFailed,
            21 => ErrorKind::StartSyncFailed,
            22 => ErrorKind::WaitSyncFailed,
            23 => ErrorKind::GetSubvolInfoFailed,
            24 => ErrorKind::GetSubvolRootrefFailed,
            25 => ErrorKind::InoLookupUserFailed,
            26 => ErrorKind::FsInfoFailed,
            _ => ErrorKind::Unknown(code),
        }
    }
}

/// Reading a code back from its status kind yields the code that was
/// classified, and the classification is always in canonical form.
pub proof fn lemma_from_code_code(code: u32)
    ensures
        ErrorKind::spec_from_code(code).spec_code() == code,
        ErrorKind::spec_from_code(code).wf(),
{
}

/// Classifying the code of a canonical status kind yields that kind again.
pub proof fn lemma_code_from_code(kind: ErrorKind)
    requires
        kind.wf(),
    ensures
        ErrorKind::spec_from_code(kind.spec_code()) == kind,
{
}

/// An OS error number, captured immediately after a failing native call.
#[derive(Clone, Copy, Debug, PartialEq, Eq, Hash, Structural)]
pub struct Errno(pub i32);

/// An error of the native btrfs utility layer: a status kind plus the OS
/// error number that was current when the failure was observed.
#[derive(Clone, Copy, Debug, PartialEq, Eq, Hash, Structural)]
pub struct Error {
    pub kind: ErrorKind,
    pub errno: Errno,
}

/// The standard OS error type, opaque to this crate; values of it are only
/// built and handed out, never inspected.
#[verifier::external_type_specification]
#[verifier::external_body]
pub struct ExIoError(std::io::Error);

/// Relies on std::io::Error::last_os_error, which reads the calling thread's
/// current OS error number (errno). The value is ambient state, so nothing can
/// be promised of it.
#[verifier::external_body]
fn last_os_errno() -> i32 {
    match std::io::Error::last_os_error().raw_os_error() {
        Some(errno) => errno,
        None => 0,
    }
}

impl Error {
    /// Builds an error from a native status code, capturing the OS error
    /// number in the same moment. Call this immediately after the failing
    /// native call returns, before anything else that could issue a system
    /// call and overwrite the OS error state.
    pub fn new(code: u32) -> (r: Error)
        ensures
            r.kind == ErrorKind::spec_from_code(code),
    {
        let errno = last_os_errno();
        Error { kind: ErrorKind::from_code(code), errno: Errno(errno) }
    }

    /// Returns the status kind of this error.
    pub fn kind(&self) -> (kind: ErrorKind)
        ensures
            kind == self.kind,
    {
        self.kind
    }

    /// Returns the OS error number captured when this error was built.
    pub fn errno(&self) -> (errno: i32)
        ensures
            errno == self.errno.0,
    {
        self.errno.0
    }

    /// Relies on std::io::Error::from_raw_os_error, which builds the standard
    /// OS error value for this error's captured errno.
    #[verifier::external_body]
    pub fn os_error(&self) -> std::io::Error {
        std::io::Error::from_raw_os_error(self.errno.0)
    }

    /// Renders this error as human-readable text, from the description that
    /// the native layer gives for its code: the description with its first
    /// byte lower-cased, since the native strings start capitalized while
    /// tool-style messages start lower-case. Without a description the text
    /// is `unknown error code: <N>`.
    pub fn message(&self, description: Option<&[u8]>) -> (m: Vec<u8>)
        requires
            description matches Some(d) ==> d@.len() > 0,
        ensures
            description matches Some(d) ==> m@ == lower_first(d@),
            description is None ==> m@ == unknown_message(self.kind.spec_code() as nat),
    {
        match description {
            Some(d) => {
                let mut m: Vec<u8> = Vec::new();
                let mut i: usize = 0;
                while i < d.len()
                    invariant
                        0 < d@.len(),
                        i <= d@.len(),
                        m@.len() == i,
                        forall|j: int| 0 <= j < i ==> m@[j] == lower_first(d@)[j],
                    decreases d@.len() - i,
                {
                    let b = d[i];
                    if i == 0 {
                        m.push(lower_byte_exec(b));
                    } else {
                        m.push(b);
                    }
                    i = i + 1;
                }
                proof {
                    assert(m@ =~= lower_first(d@));
                }
                m
            },
            None => {
                let mut m: Vec<u8> = Vec::new();
                m.push(117);  // u
                m.push(110);  // n
                m.push(107);  // k
                m.push(110);  // n
                m.push(111);  // o
                m.push(119);  // w
                m.push(110);  // n
                m.push(32);  // space
                m.push(101);  // e
                m.push(114);  // r
                m.push(114);  // r
                m.push(111);  // o
                m.push(114);  // r
                m.push(32);  // space
                m.push(99);  // c
                m.push(111);  // o
                m.push(100);  // d
                m.push(101);  // e
                m.push(58);  // :
                m.push(32);  // space
                proof {
                    assert(m@ =~= unknown_prefix());
                }
                let code = self.kind.code();
                push_decimal(code, &mut m);
                m
            },
        }
    }
}

/// ASCII lower-casing of a single byte.
pub open spec fn lower_byte(b: u8) -> u8 {
    if 65 <= b <= 90 {
        (b + 32) as u8
    } else {
        b
    }
}

/// A byte string with its first byte lower-cased.
pub open spec fn lower_first(s: Seq<u8>) -> Seq<u8>
    recommends
        s.len() > 0,
{
    s.update(0, lower_byte(s[0]))
}

/// The decimal digits of a number, most significant first.
pub open spec fn dec_digits(n: nat) -> Seq<u8>
    decreases n,
{
    if n < 10 {
        seq![(48 + n) as u8]
    } else {
        dec_digits(n / 10).push((48 + n % 10) as u8)
    }
}

/// The bytes of `unknown error code: `.
pub open spec fn unknown_prefix() -> Seq<u8> {
    seq![
        117u8, 110, 107, 110, 111, 119, 110, 32, 101, 114, 114, 111, 114, 32, 99, 111, 100, 101,
        58, 32,
    ]
}

/// The rendering of a status code that the native layer has no description
/// for.
pub open spec fn unknown_message(n: nat) -> Seq<u8> {
    unknown_prefix() + dec_digits(n)
}

fn lower_byte_exec(b: u8) -> (r: u8)
    ensures
        r == lower_byte(b),
{
    if 65 <= b && b <= 90 {
        b + 32
    } else {
        b
    }
}

/// Appends the decimal digits of `n`, most significant first.
fn push_decimal(n: u32, out: &mut Vec<u8>)
    ensures
        final(out)@ == old(out)@ + dec_digits(n as nat),
    decreases n,
{
    if n < 10 {
        out.push(48 + n as u8);
    } else {
        push_decimal(n / 10, out);
        out.push(48 + (n % 10) as u8);
        proof {
            assert(out@ =~= old(out)@ + dec_digits(n as nat));
        }
    }
}

/// The numeric value a string of ASCII decimal digits denotes.
pub open spec fn digits_value(s: Seq<u8>) -> int
    decreases s.len(),
{
    if s.len() == 0 {
        0
    } else {
        digits_value(s.drop_last()) * 10 + s.last() - 48
    }
}

/// The decimal rendering of a number is never empty, holds ASCII digits
/// only, and denotes the number again: the text after `unknown error code: `
/// is exactly the code.
pub proof fn lemma_dec_digits_value(n: nat)
    ensures
        dec_digits(n).len() > 0,
        forall|i: int| 0 <= i < dec_digits(n).len() ==> 48 <= #[trigger] dec_digits(n)[i] <= 57,
        digits_value(dec_digits(n)) == n,
    decreases n,
{
    if n < 10 {
        assert((48 + n) as u8 == 48 + n);
        assert(dec_digits(n).drop_last() =~= Seq::<u8>::empty());
        assert(dec_digits(n).last() == (48 + n) as u8);
        assert(digits_value(Seq::<u8>::empty()) == 0);
        assert(digits_value(dec_digits(n)) == digits_value(dec_digits(n).drop_last()) * 10
            + dec_digits(n).last() - 48);
    } else {
        lemma_dec_digits_value(n / 10);
        let prefix = dec_digits(n / 10);
        let whole = dec_digits(n);
        assert(whole == prefix.push((48 + n % 10) as u8));
        assert(whole.drop_last() =~= prefix);
        assert(whole.last() == (48 + n % 10) as u8);
        assert((48 + n % 10) as u8 == 48 + n % 10);
        assert(digits_value(whole) == digits_value(prefix) * 10 + whole.last() - 48);
        vstd::arithmetic::div_mod::lemma_fundamental_div_mod(n as int, 10);
        assert(n == 10 * (n as int / 10) + n as int % 10);
        assert forall|i: int| 0 <= i < whole.len() implies 48 <= #[trigger] whole[i] <= 57 by {
            if i < prefix.len() {
                assert(whole[i] == prefix[i]);
            }
        }
    }
}

/// Rendering a described status lower-cases exactly the first byte and keeps
/// every later byte; rendering a code without a description yields exactly
/// `unknown error code: <N>`.
pub proof fn lemma_message_shape(code: u32, d: Seq<u8>)
    requires
        d.len() > 0,
    ensures
        lower_first(d).len() == d.len(),
        lower_first(d)[0] == lower_byte(d[0]),
        forall|i: int| 1 <= i < d.len() ==> lower_first(d)[i] == d[i],
        unknown_message(code as nat) == unknown_prefix() + dec_digits(code as nat),
{
}

} // verus!
