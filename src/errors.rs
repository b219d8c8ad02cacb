use vstd::prelude::*;

verus! {

/// Why a protocol call was rejected. Every rejection leaves the state as it was.
#[derive(Clone, Debug, PartialEq, Eq)]
pub enum MigrationError {
    /// The contract's mode forbids the operation.
    OperationUnavailable { message: String },
    /// The registry has no registration slot left.
    NoSlotsAvailable,
    /// The caller is not the configured admin.
    Unauthorized,
    /// The addressing capability refused an address.
    AddressInvalid { message: String },
}

pub enum ErrorView {
    OperationUnavailable { message: Seq<char> },
    NoSlotsAvailable,
    Unauthorized,
    AddressInvalid { message: Seq<char> },
}

impl View for MigrationError {
    type V = ErrorView;

    open spec fn view(&self) -> ErrorView {
        match self {
            MigrationError::OperationUnavailable { message } => ErrorView::OperationUnavailable {
                message: message@,
            },
            MigrationError::NoSlotsAvailable => ErrorView::NoSlotsAvailable,
            MigrationError::Unauthorized => ErrorView::Unauthorized,
            MigrationError::AddressInvalid { message } => ErrorView::AddressInvalid {
                message: message@,
            },
        }
    }
}

/// The text of the slot-exhaustion error.
pub open spec fn no_slots_text() -> Seq<char> {
    "No migration complete notification slots available"@
}

pub open spec fn unauthorized_text() -> Seq<char> {
    "Unauthorized"@
}

/// The text by which an error is reported as a generic error.
pub open spec fn error_text(e: ErrorView) -> Seq<char> {
    match e {
        ErrorView::OperationUnavailable { message } => message,
        ErrorView::NoSlotsAvailable => no_slots_text(),
        ErrorView::Unauthorized => unauthorized_text(),
        ErrorView::AddressInvalid { message } => message,
    }
}

impl MigrationError {
    /// The error's text, as a generic error carries it.
    pub fn message(&self) -> (r: String)
        ensures
            r@ == error_text(self@),
    {
        match self {
            MigrationError::OperationUnavailable { message } => message.clone(),
            MigrationError::NoSlotsAvailable => String::from_str(
                "No migration complete notification slots available",
            ),
            MigrationError::Unauthorized => String::from_str("Unauthorized"),
            MigrationError::AddressInvalid { message } => message.clone(),
        }
    }
}

/// The error a contract reports when a migration-complete notification it
/// sent came back failed.
#[derive(Clone, Debug, PartialEq, Eq)]
pub enum MigratableStdError {
    /// A generic error, by its message.
    Std(String),
    /// The notified subscriber has itself migrated: it should be asked to
    /// notify this contract of its new address. Holds the subscriber and the
    /// error text.
    MigrationCompleteNotificationFailed(String, String),
}

/// `needle` occurs in `haystack` as a contiguous run.
pub open spec fn contains_seq(haystack: Seq<char>, needle: Seq<char>) -> bool {
    exists|i: int|
        0 <= i && i + needle.len() <= haystack.len() && #[trigger] haystack.subrange(
            i,
            i + needle.len(),
        ) == needle
}

/// The characters of `s`, in order.
pub fn chars_of(s: &str) -> (r: Vec<char>)
    ensures
        r@ == s@,
{
    let n = s.unicode_len();
    let mut r: Vec<char> = Vec::with_capacity(n);
    let mut i: usize = 0;
    while i < n
        invariant
            0 <= i <= n,
            n == s@.len(),
            r@ == s@.subrange(0, i as int),
        decreases n - i,
    {
        r.push(s.get_char(i));
        i = i + 1;
    }
    assert(s@ == s@.subrange(0, n as int));
    r
}

/// Whether `needle` occurs at position `at` of `haystack`.
pub fn occurs_at(haystack: &Vec<char>, needle: &Vec<char>, at: usize) -> (r: bool)
    requires
        at + needle@.len() <= haystack@.len(),
    ensures
        r == (haystack@.subrange(at as int, at + needle@.len()) == needle@),
{
    let hl = haystack.len();
    let mut j: usize = 0;
    while j < needle.len()
        invariant
            0 <= j <= needle@.len(),
            hl == haystack@.len(),
            at + needle@.len() <= haystack@.len(),
            haystack@.subrange(at as int, at + j) == needle@.subrange(0, j as int),
        decreases needle@.len() - j,
    {
        if haystack[at + j] != needle[j] {
            assert(haystack@.subrange(at as int, at + needle@.len())[j as int] != needle@[j as int]);
            return false;
        }
        assert(haystack@.subrange(at as int, at + j + 1) == haystack@.subrange(at as int, at + j).push(
            haystack@[at + j],
        ));
        assert(needle@.subrange(0, j + 1) == needle@.subrange(0, j as int).push(needle@[j as int]));
        j = j + 1;
    }
    assert(needle@ == needle@.subrange(0, needle@.len() as int));
    true
}

/// Whether `needle` occurs in `haystack`.
pub fn contains_str(haystack: &str, needle: &str) -> (r: bool)
    ensures
        r == contains_seq(haystack@, needle@),
{
    let h = chars_of(haystack);
    let n = chars_of(needle);
    if n.len() > h.len() {
        return false;
    }
    if n.len() == 0 {
        assert(haystack@.subrange(0, 0 + needle@.len() as int) =~= needle@);
        return true;
    }
    let hl = h.len();
    let last = hl - n.len();
    let mut i: usize = 0;
    while i <= last
        invariant
            0 <= i <= last + 1,
            hl == h@.len(),
            n@.len() > 0,
            last + n@.len() == h@.len(),
            h@ == haystack@,
            n@ == needle@,
            forall|k: int| 0 <= k < i ==> #[trigger] h@.subrange(k, k + n@.len()) != n@,
        decreases last + 1 - i,
    {
        if occurs_at(&h, &n, i) {
            return true;
        }
        i = i + 1;
    }
    false
}

/// The part of a failure text that marks a subscriber that has itself migrated.
pub open spec fn migrated_marker() -> Seq<char> {
    "failed to validate"@
}

/// The placeholder under which a migrated subscriber is reported.
pub open spec fn unknown_subscriber() -> Seq<char> {
    "someaddress"@
}

/// Turns the outcome of a migration-complete notification into this
/// contract's result: success stays success; a failure whose text holds
/// "failed to validate" becomes `MigrationCompleteNotificationFailed`, any
/// other failure a generic error with the same text.
pub fn humanize_migration_complete_notification_error(result: Result<(), String>) -> (r: Result<
    (),
    MigratableStdError,
>)
    ensures
        match result {
            Ok(_) => r is Ok,
            Err(m) => if contains_seq(m@, migrated_marker()) {
                r matches Err(MigratableStdError::MigrationCompleteNotificationFailed(a, t)) && a@
                    == unknown_subscriber() && t@ == m@
            } else {
                r matches Err(MigratableStdError::Std(t)) && t@ == m@
            },
        },
{
    match result {
        Ok(_) => Ok(()),
        Err(error_msg) => {
            if contains_str(error_msg.as_str(), "failed to validate") {
                Err(
                    MigratableStdError::MigrationCompleteNotificationFailed(
                        String::from_str("someaddress"),
                        error_msg,
                    ),
                )
            } else {
                Err(MigratableStdError::Std(error_msg))
            }
        },
    }
}

} // verus!
