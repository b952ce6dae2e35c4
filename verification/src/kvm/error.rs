//! What can go wrong while a KVM backend is set up.

use vstd::prelude::*;

verus! {

/// `std::io::Error`, carried through. Nothing is claimed of it; its text, which
/// a message quotes, is whatever its `Display` gives.
#[verifier::external_type_specification]
#[verifier::external_body]
pub struct ExIoError(std::io::Error);

/// Error from constructing a KVM backend.
#[derive(Debug)]
pub enum KvmError {
    /// The kernel's `KVM_GET_API_VERSION` is older than
    /// [`MIN_API`](crate::kvm::vcpu::MIN_API).
    ApiTooOld(i32),
    /// Opening `/dev/kvm` failed (absent, or permission denied).
    Open(std::io::Error),
    /// An ioctl on one of the kvm fds failed.
    Ioctl(&'static str, std::io::Error),
}

/// The reason for a failure, before the OS error is known.
#[derive(Clone, Copy, Debug)]
pub enum Cause {
    /// The kernel's API version, which is too old.
    ApiTooOld(i32),
    /// The operation that failed.
    Call(&'static str),
}

impl Cause {
    /// The error, once the OS error of the failed operation has been fetched.
    pub fn into_error(self, os: std::io::Error) -> (e: KvmError)
        ensures
            e == match self {
                Cause::ApiTooOld(version) => KvmError::ApiTooOld(version),
                Cause::Call(op) => KvmError::Ioctl(op, os),
            },
    {
        match self {
            Cause::ApiTooOld(version) => KvmError::ApiTooOld(version),
            Cause::Call(op) => KvmError::Ioctl(op, os),
        }
    }
}

/// The digit `d`.
pub open spec fn digit(d: int) -> char {
    (('0' as int) + d) as char
}

/// `n` in decimal notation.
pub open spec fn decimal(n: nat) -> Seq<char>
    decreases n,
{
    if n < 10 {
        seq![digit(n as int)]
    } else {
        decimal(n / 10).push(digit((n % 10) as int))
    }
}

/// `v` in decimal notation, with a sign where it is negative.
pub open spec fn signed_decimal(v: int) -> Seq<char> {
    if v < 0 {
        seq!['-'] + decimal((-v) as nat)
    } else {
        decimal(v as nat)
    }
}

/// The message for `e`, when its OS error reads `detail`.
pub open spec fn error_text(e: KvmError, detail: Seq<char>) -> Seq<char> {
    match e {
        KvmError::ApiTooOld(v) => "KVM API too old: "@ + signed_decimal(v as int) + " < 12"@,
        KvmError::Open(_) => "failed to open /dev/kvm: "@ + detail,
        KvmError::Ioctl(op, _) => "KVM ioctl "@ + op@ + " failed: "@ + detail,
    }
}

fn append_decimal(out: &mut String, n: u64)
    ensures
        final(out)@ == old(out)@ + decimal(n as nat),
    decreases n,
{
    if n >= 10 {
        append_decimal(out, n / 10);
    }
    let d: u64 = n % 10;
    proof {
        reveal_strlit("0");
        reveal_strlit("1");
        reveal_strlit("2");
        reveal_strlit("3");
        reveal_strlit("4");
        reveal_strlit("5");
        reveal_strlit("6");
        reveal_strlit("7");
        reveal_strlit("8");
        reveal_strlit("9");
    }
    let text: &str = match d {
        0 => "0",
        1 => "1",
        2 => "2",
        3 => "3",
        4 => "4",
        5 => "5",
        6 => "6",
        7 => "7",
        8 => "8",
        _ => "9",
    };
    assert(text@ =~= seq![digit(d as int)]);
    out.append(text);
    assert(out@ =~= old(out)@ + decimal(n as nat));
}

impl KvmError {
    /// The message, given the text of the OS error.
    pub fn message_with(&self, detail: &str) -> (out: String)
        ensures
            out@ == error_text(*self, detail@),
    {
        let mut out: String = String::new();
        match self {
            KvmError::ApiTooOld(v) => {
                out.append("KVM API too old: ");
                let magnitude: u64 = if *v < 0 {
                    proof {
                        reveal_strlit("-");
                        assert("-"@ =~= seq!['-']);
                    }
                    out.append("-");
                    (-(*v as i64)) as u64
                } else {
                    *v as u64
                };
                append_decimal(&mut out, magnitude);
                out.append(" < 12");
            },
            KvmError::Open(_) => {
                out.append("failed to open /dev/kvm: ");
                out.append(detail);
            },
            KvmError::Ioctl(op, _) => {
                out.append("KVM ioctl ");
                out.append(*op);
                out.append(" failed: ");
                out.append(detail);
            },
        }
        assert(out@ =~= error_text(*self, detail@));
        out
    }

    /// The message.
    pub fn message(&self) -> (out: String)
        ensures
            self matches KvmError::ApiTooOld(v) ==> out@ == "KVM API too old: "@ + signed_decimal(
                v as int,
            ) + " < 12"@,
            exists|detail: String|
                out@ == error_text(*self, #[trigger] detail@) && (match *self {
                    KvmError::ApiTooOld(_) => true,
                    KvmError::Open(e) => vstd::string::to_string_from_display_ensures(&e, detail),
                    KvmError::Ioctl(_, e) => vstd::string::to_string_from_display_ensures(
                        &e,
                        detail,
                    ),
                }),
    {
        let detail: String = match self {
            KvmError::ApiTooOld(_) => String::new(),
            KvmError::Open(e) => e.to_string(),
            KvmError::Ioctl(_, e) => e.to_string(),
        };
        self.message_with(detail.as_str())
    }
}

} // verus!
