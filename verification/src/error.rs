//! The error taxonomy: how a report of the archive engine's last-error
//! channel becomes a typed failure.
use vstd::prelude::*;

verus! {

/// The result of every fallible operation of this library.
pub type DssResult<T> = Result<T, DssError>;

/// The broad class of a failure. `OK` is the clean state; every other group
/// is a reported failure.
#[derive(Debug, Clone, Copy, PartialEq, Eq, Structural)]
pub enum DssErrorGroup {
    OK,
    ACCESS,
    FILE,
    MEMORY,
    UNKNOWN,
}

/// The named condition behind a failure, as the engine numbers them.
#[derive(Debug, Clone, Copy, PartialEq, Eq, Structural)]
pub enum DssErrorKind {
    STATUS_OK,
    INVALID_FILE_VERSION,
    INCOMPATIBLE_VERSION,
    INCOMPATIBLE_VERSION_6,
    INVALID_FILE_NAME,
    NO_EXCLUSIVE_ACCESS,
    UNABLE_TO_ACCESS_FILE,
    UNABLE_TO_WRITE_FILE,
    UNABLE_TO_CREATE_FILE,
    NO_WRITE_PERMISSION,
    NO_PERMISSION,
    WRITE_ON_READ_ONLY,
    INVALID_DSS_FILE,
    INVALID_ADDRESS,
    INVALID_NUMBER_TO_READ,
    INVALID_NUMBER_TO_WRITE,
    WRITE_ERROR,
    READ_ERROR,
    READ_BEYOND_EOF,
    INVALID_FILE_HEADER,
    TRUNCATED_FILE,
    INVALID_HEADER_PARAMETER,
    DAMAGED_FILE,
    CLOSED_FILE,
    EMPTY_FILE,
    IFLTAB_CORRUPT,
    KEY_CORRUPT,
    KEY_VALUE,
    KEY3_LOCATION,
    CANNOT_LOCK_FILE,
    CANNOT_LOCK_EXCLUSIVE,
    CANNOT_LOCK_MULTI_USER,
    CANNOT_SQUEEZE,
    INVALID_BIN_STATUS,
    CANNOT_ALLOCATE_MEMORY,
    INVALID_PARAMETER,
    INVALID_NUMBER,
    INCOMPATIBLE_CALL,
    NON_EMPTY_FILE,
    BIN_SIZE_CONFLICT,
    DIFFERENT_RECORD_TYPE,
    WRONG_RECORD_TYPE,
    NO_UNDELETE_WITH_RECLAIM,
    ARRAY_SPACE_EXHAUSTED,
    BOTH_NOTE_KINDS_USED,
    NO_DATA_GIVEN,
    NO_DATA_READ,
    NO_TIME_WINDOW,
    INVALID_DATE_TIME,
    INVALID_INTERVAL,
    TIMES_NOT_ASCENDING,
    DIFFERENT_PROFILE_NUMBER,
    RECORD_DOES_NOT_EXIST,
    RECORD_ALREADY_EXISTS,
    INVALID_PATHNAME,
    INVALID_RECORD_HEADER,
    ARRAY_TOO_SMALL,
    NOT_OPENED,
    FILE_DOES_NOT_EXIST,
    FILE_EXISTS,
    NULL_FILENAME,
    NULL_PATHNAME,
    NULL_ARGUMENT,
    NULL_ARRAY,
    UNDEFINED_ERROR,
}

/// The mathematical content of a [`DssError`].
pub ghost struct ErrorReport {
    pub group: DssErrorGroup,
    pub kind: DssErrorKind,
    pub message: Seq<char>,
}

/// A failure, or the clean state, with the engine's message.
#[derive(Debug)]
pub struct DssError {
    group: DssErrorGroup,
    kind: DssErrorKind,
    mesg: String,
}

impl View for DssError {
    type V = ErrorReport;

    closed spec fn view(&self) -> ErrorReport {
        ErrorReport { group: self.group, kind: self.kind, message: self.mesg@ }
    }
}

/// The engine's code table: the kind at position `c` is the kind of numeric
/// code `c`. Code 6 is not assigned.
pub open spec fn kind_table() -> Seq<DssErrorKind> {
    seq![
        DssErrorKind::STATUS_OK,
        DssErrorKind::INVALID_FILE_VERSION,
        DssErrorKind::INCOMPATIBLE_VERSION,
        DssErrorKind::INCOMPATIBLE_VERSION_6,
        DssErrorKind::INVALID_FILE_NAME,
        DssErrorKind::NO_EXCLUSIVE_ACCESS,
        DssErrorKind::UNDEFINED_ERROR,
        DssErrorKind::UNABLE_TO_WRITE_FILE,
        DssErrorKind::UNABLE_TO_CREATE_FILE,
        DssErrorKind::NO_WRITE_PERMISSION,
        DssErrorKind::NO_PERMISSION,
        DssErrorKind::WRITE_ON_READ_ONLY,
        DssErrorKind::INVALID_DSS_FILE,
        DssErrorKind::INVALID_ADDRESS,
        DssErrorKind::INVALID_NUMBER_TO_READ,
        DssErrorKind::INVALID_NUMBER_TO_WRITE,
        DssErrorKind::WRITE_ERROR,
        DssErrorKind::READ_ERROR,
        DssErrorKind::READ_BEYOND_EOF,
        DssErrorKind::INVALID_FILE_HEADER,
        DssErrorKind::TRUNCATED_FILE,
        DssErrorKind::INVALID_HEADER_PARAMETER,
        DssErrorKind::DAMAGED_FILE,
        DssErrorKind::CLOSED_FILE,
        DssErrorKind::EMPTY_FILE,
        DssErrorKind::IFLTAB_CORRUPT,
        DssErrorKind::KEY_CORRUPT,
        DssErrorKind::KEY_VALUE,
        DssErrorKind::KEY3_LOCATION,
        DssErrorKind::CANNOT_LOCK_FILE,
        DssErrorKind::CANNOT_LOCK_EXCLUSIVE,
        DssErrorKind::CANNOT_LOCK_MULTI_USER,
        DssErrorKind::CANNOT_SQUEEZE,
        DssErrorKind::INVALID_BIN_STATUS,
        DssErrorKind::CANNOT_ALLOCATE_MEMORY,
        DssErrorKind::INVALID_PARAMETER,
        DssErrorKind::INVALID_NUMBER,
        DssErrorKind::INCOMPATIBLE_CALL,
        DssErrorKind::NON_EMPTY_FILE,
        DssErrorKind::BIN_SIZE_CONFLICT,
        DssErrorKind::DIFFERENT_RECORD_TYPE,
        DssErrorKind::WRONG_RECORD_TYPE,
        DssErrorKind::NO_UNDELETE_WITH_RECLAIM,
        DssErrorKind::ARRAY_SPACE_EXHAUSTED,
        DssErrorKind::BOTH_NOTE_KINDS_USED,
        DssErrorKind::NO_DATA_GIVEN,
        DssErrorKind::NO_DATA_READ,
        DssErrorKind::NO_TIME_WINDOW,
        DssErrorKind::INVALID_DATE_TIME,
        DssErrorKind::INVALID_INTERVAL,
        DssErrorKind::TIMES_NOT_ASCENDING,
        DssErrorKind::DIFFERENT_PROFILE_NUMBER,
        DssErrorKind::RECORD_DOES_NOT_EXIST,
        DssErrorKind::RECORD_ALREADY_EXISTS,
        DssErrorKind::INVALID_PATHNAME,
        DssErrorKind::INVALID_RECORD_HEADER,
        DssErrorKind::ARRAY_TOO_SMALL,
        DssErrorKind::NOT_OPENED,
        DssErrorKind::FILE_DOES_NOT_EXIST,
        DssErrorKind::FILE_EXISTS,
        DssErrorKind::NULL_FILENAME,
        DssErrorKind::NULL_PATHNAME,
        DssErrorKind::NULL_ARGUMENT,
        DssErrorKind::NULL_ARRAY,
        DssErrorKind::UNDEFINED_ERROR,
    ]
}

/// The kind that a numeric code stands for; codes outside the table, and
/// the unassigned one, are `UNDEFINED_ERROR`.
pub open spec fn kind_of_code(code: int) -> DssErrorKind {
    if 0 <= code < kind_table().len() {
        kind_table()[code]
    } else {
        DssErrorKind::UNDEFINED_ERROR
    }
}

/// The group that the engine's error category stands for: the categories
/// below 2 are "none" and "warning", and are clean.
pub open spec fn group_of_category(category: int) -> DssErrorGroup {
    if category < 2 {
        DssErrorGroup::OK
    } else if category == 2 {
        DssErrorGroup::ACCESS
    } else if category == 3 {
        DssErrorGroup::FILE
    } else if category == 4 {
        DssErrorGroup::MEMORY
    } else {
        DssErrorGroup::UNKNOWN
    }
}

/// What a report of the engine's last-error channel classifies to.
pub open spec fn classify(category: int, code: int, message: Seq<char>) -> ErrorReport {
    ErrorReport {
        group: group_of_category(category),
        kind: kind_of_code(code),
        message: message,
    }
}

/// The report of a failure that this library detected itself.
pub open spec fn raised(message: Seq<char>) -> ErrorReport {
    ErrorReport {
        group: DssErrorGroup::UNKNOWN,
        kind: DssErrorKind::UNDEFINED_ERROR,
        message: message,
    }
}

/// A numeric code outside the table, or the one that is not assigned, stands
/// for `UNDEFINED_ERROR`; and a category is clean exactly when it is below 2.
pub proof fn lemma_unmapped_codes_are_undefined(code: int, category: int)
    ensures
        code < 0 || code >= kind_table().len() || code == 6 ==> kind_of_code(code)
            == DssErrorKind::UNDEFINED_ERROR,
        kind_table().len() == 65,
        group_of_category(category) == DssErrorGroup::OK <==> category < 2,
{
}

/// Maps the engine's numeric code to its kind.
pub fn kind_from_code(code: i32) -> (kind: DssErrorKind)
    ensures
        kind == kind_of_code(code as int),
{
    match code {
        0 => DssErrorKind::STATUS_OK,
        1 => DssErrorKind::INVALID_FILE_VERSION,
        2 => DssErrorKind::INCOMPATIBLE_VERSION,
        3 => DssErrorKind::INCOMPATIBLE_VERSION_6,
        4 => DssErrorKind::INVALID_FILE_NAME,
        5 => DssErrorKind::NO_EXCLUSIVE_ACCESS,
        7 => DssErrorKind::UNABLE_TO_WRITE_FILE,
        8 => DssErrorKind::UNABLE_TO_CREATE_FILE,
        9 => DssErrorKind::NO_WRITE_PERMISSION,
        10 => DssErrorKind::NO_PERMISSION,
        11 => DssErrorKind::WRITE_ON_READ_ONLY,
        12 => DssErrorKind::INVALID_DSS_FILE,
        13 => DssErrorKind::INVALID_ADDRESS,
        14 => DssErrorKind::INVALID_NUMBER_TO_READ,
        15 => DssErrorKind::INVALID_NUMBER_TO_WRITE,
        16 => DssErrorKind::WRITE_ERROR,
        17 => DssErrorKind::READ_ERROR,
        18 => DssErrorKind::READ_BEYOND_EOF,
        19 => DssErrorKind::INVALID_FILE_HEADER,
        20 => DssErrorKind::TRUNCATED_FILE,
        21 => DssErrorKind::INVALID_HEADER_PARAMETER,
        22 => DssErrorKind::DAMAGED_FILE,
        23 => DssErrorKind::CLOSED_FILE,
        24 => DssErrorKind::EMPTY_FILE,
        25 => DssErrorKind::IFLTAB_CORRUPT,
        26 => DssErrorKind::KEY_CORRUPT,
        27 => DssErrorKind::KEY_VALUE,
        28 => DssErrorKind::KEY3_LOCATION,
        29 => DssErrorKind::CANNOT_LOCK_FILE,
        30 => DssErrorKind::CANNOT_LOCK_EXCLUSIVE,
        31 => DssErrorKind::CANNOT_LOCK_MULTI_USER,
        32 => DssErrorKind::CANNOT_SQUEEZE,
        33 => DssErrorKind::INVALID_BIN_STATUS,
        34 => DssErrorKind::CANNOT_ALLOCATE_MEMORY,
        35 => DssErrorKind::INVALID_PARAMETER,
        36 => DssErrorKind::INVALID_NUMBER,
        37 => DssErrorKind::INCOMPATIBLE_CALL,
        38 => DssErrorKind::NON_EMPTY_FILE,
        39 => DssErrorKind::BIN_SIZE_CONFLICT,
        40 => DssErrorKind::DIFFERENT_RECORD_TYPE,
        41 => DssErrorKind::WRONG_RECORD_TYPE,
        42 => DssErrorKind::NO_UNDELETE_WITH_RECLAIM,
        43 => DssErrorKind::ARRAY_SPACE_EXHAUSTED,
        44 => DssErrorKind::BOTH_NOTE_KINDS_USED,
        45 => DssErrorKind::NO_DATA_GIVEN,
        46 => DssErrorKind::NO_DATA_READ,
        47 => DssErrorKind::NO_TIME_WINDOW,
        48 => DssErrorKind::INVALID_DATE_TIME,
        49 => DssErrorKind::INVALID_INTERVAL,
        50 => DssErrorKind::TIMES_NOT_ASCENDING,
        51 => DssErrorKind::DIFFERENT_PROFILE_NUMBER,
        52 => DssErrorKind::RECORD_DOES_NOT_EXIST,
        53 => DssErrorKind::RECORD_ALREADY_EXISTS,
        54 => DssErrorKind::INVALID_PATHNAME,
        55 => DssErrorKind::INVALID_RECORD_HEADER,
        56 => DssErrorKind::ARRAY_TOO_SMALL,
        57 => DssErrorKind::NOT_OPENED,
        58 => DssErrorKind::FILE_DOES_NOT_EXIST,
        59 => DssErrorKind::FILE_EXISTS,
        60 => DssErrorKind::NULL_FILENAME,
        61 => DssErrorKind::NULL_PATHNAME,
        62 => DssErrorKind::NULL_ARGUMENT,
        63 => DssErrorKind::NULL_ARRAY,
        _ => DssErrorKind::UNDEFINED_ERROR,
    }
}

/// Maps the engine's error category to its group.
pub fn group_from_category(category: i32) -> (group: DssErrorGroup)
    ensures
        group == group_of_category(category as int),
{
    if category < 2 {
        DssErrorGroup::OK
    } else if category == 2 {
        DssErrorGroup::ACCESS
    } else if category == 3 {
        DssErrorGroup::FILE
    } else if category == 4 {
        DssErrorGroup::MEMORY
    } else {
        DssErrorGroup::UNKNOWN
    }
}

impl Clone for DssError {
    fn clone(&self) -> (copy: Self)
        ensures
            copy@ == self@,
    {
        DssError { group: self.group, kind: self.kind, mesg: self.mesg.clone() }
    }
}

impl DssError {
    /// The clean state, as it is before every engine call.
    pub fn new() -> (err: Self)
        ensures
            err@ == (ErrorReport {
                group: DssErrorGroup::OK,
                kind: DssErrorKind::STATUS_OK,
                message: "No Error."@,
            }),
    {
        DssError {
            group: DssErrorGroup::OK,
            kind: DssErrorKind::STATUS_OK,
            mesg: String::from_str("No Error."),
        }
    }

    /// A failure that this library detected itself, with its message.
    pub fn raise(mesg: String) -> (err: Self)
        ensures
            err@ == raised(mesg@),
    {
        DssError { group: DssErrorGroup::UNKNOWN, kind: DssErrorKind::UNDEFINED_ERROR, mesg }
    }

    /// Replaces the state by the classification of what the engine's
    /// last-error channel reported after a call: its category, its numeric
    /// code and its message.
    pub fn update(self, category: i32, code: i32, message: String) -> (err: Self)
        ensures
            err@ == classify(category as int, code as int, message@),
    {
        DssError {
            group: group_from_category(category),
            kind: kind_from_code(code),
            mesg: message,
        }
    }

    /// `Ok` in the clean state; otherwise the failure itself, as a copy.
    pub fn is_ok(&self) -> (res: DssResult<()>)
        ensures
            self@.group == DssErrorGroup::OK ==> res is Ok,
            self@.group != DssErrorGroup::OK ==> res is Err && res->Err_0@ == self@,
    {
        match self.group {
            DssErrorGroup::OK => Ok(()),
            _ => Err(self.clone()),
        }
    }

    /// Classifies a report of the engine's last-error channel in one step:
    /// `Ok` where the category is clean, the typed failure otherwise.
    pub fn check(category: i32, code: i32, message: String) -> (res: Result<(), Self>)
        ensures
            group_of_category(category as int) == DssErrorGroup::OK ==> res is Ok,
            group_of_category(category as int) != DssErrorGroup::OK ==> res is Err
                && res->Err_0@ == classify(category as int, code as int, message@),
    {
        if category < 2 {
            Ok(())
        } else {
            Err(DssError::new().update(category, code, message))
        }
    }

    /// The group of this state.
    pub fn group(&self) -> (group: DssErrorGroup)
        ensures
            group == self@.group,
    {
        self.group
    }

    /// The kind of this state.
    pub fn kind(&self) -> (kind: DssErrorKind)
        ensures
            kind == self@.kind,
    {
        self.kind
    }

    /// The message of this state.
    pub fn message(&self) -> (mesg: &str)
        ensures
            mesg@ == self@.message,
    {
        self.mesg.as_str()
    }

    /// The one-line rendering of this state: the words `Dss error: ` and the
    /// message.
    pub fn to_string(&self) -> (text: String)
        ensures
            text@ == "Dss error: "@ + self@.message,
    {
        String::from_str("Dss error: ").concat(self.mesg.as_str())
    }
}

} // verus!
