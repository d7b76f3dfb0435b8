use vstd::prelude::*;

use crate::text::{signed_decimal, signed_text};

verus! {

/// The lowercase hexadecimal digit of `d < 16`.
pub open spec fn hex_digit(d: nat) -> char {
    if d < 10 {
        ((48 + d) as u8) as char
    } else {
        ((87 + d) as u8) as char
    }
}

/// The `width` lowest hexadecimal digits of `v`, most significant first.
pub open spec fn hex_fixed(v: nat, width: nat) -> Seq<char>
    decreases width,
{
    if width == 0 {
        Seq::empty()
    } else {
        hex_fixed(v / 16, (width - 1) as nat).push(hex_digit(v % 16))
    }
}

/// The hyphenated lowercase form of the UUID with value `v`
/// (`xxxxxxxx-xxxx-xxxx-xxxx-xxxxxxxxxxxx`).
pub open spec fn uuid_text(v: u128) -> Seq<char> {
    let h = hex_fixed(v as nat, 32);
    h.subrange(0, 8) + "-"@ + h.subrange(8, 12) + "-"@ + h.subrange(12, 16) + "-"@ + h.subrange(16, 20) + "-"@
        + h.subrange(20, 32)
}

/// `uuid::Uuid::from_u128(v).to_string()`: the `Display` form of a UUID is
/// its hyphenated lowercase hexadecimal form.
#[verifier::external_body]
fn uuid_string(v: u128) -> (r: String)
    ensures
        r@ == uuid_text(v),
{
    uuid::Uuid::from_u128(v).to_string()
}

/// A domain event that is persisted: it names its aggregate category, the
/// aggregate instance it belongs to, and its own type.
pub trait StorableEvent: Sized {
    spec fn category() -> Seq<char>;

    spec fn owner(&self) -> u128;

    spec fn type_label(&self) -> Seq<char>;

    spec fn labels() -> Seq<Seq<char>>;

    /// The aggregate type name (e.g. "Medium").
    fn aggregate_type() -> (r: &'static str)
        ensures
            r@ == Self::category(),
    ;

    /// The aggregate instance id this event belongs to.
    fn aggregate_id(&self) -> (r: String)
        ensures
            r@ == uuid_text(self.owner()),
    ;

    /// The event type name used for storage and filtering.
    fn event_type_name(&self) -> (r: &'static str)
        ensures
            r@ == self.type_label(),
    ;

    /// All event type names of this aggregate's events.
    fn all_event_types() -> (r: Vec<&'static str>)
        ensures
            r@.map_values(|s: &'static str| s@) == Self::labels(),
    ;
}

/// The key of the stream an event is stored in, `"<category>-<id>"`.
pub open spec fn stored_stream_key(category: Seq<char>, owner: u128) -> Seq<char> {
    category + "-"@ + uuid_text(owner)
}

/// The stream an event is persisted to.
pub fn stream_key_of<E: StorableEvent>(event: &E) -> (r: String)
    ensures
        r@ == stored_stream_key(E::category(), event.owner()),
{
    proof {
        reveal_strlit("-");
    }
    String::from_str(E::aggregate_type()).concat("-").concat(event.aggregate_id().as_str())
}

/// Why persisting an event failed.
#[derive(Debug)]
pub enum PersistFailure {
    /// Another writer stored the expected version of the stream first.
    Conflict { message: String },
    /// Any other failure.
    Internal { message: String },
}

impl PersistFailure {
    pub open spec fn text(self) -> Seq<char> {
        match self {
            PersistFailure::Conflict { message } => message@,
            PersistFailure::Internal { message } => message@,
        }
    }
}

/// The version an event is stored at: the one after the version the
/// publisher expected.
pub fn stored_version(expected_version: i64) -> (r: i64)
    requires
        expected_version < i64::MAX,
    ensures
        r == expected_version + 1,
{
    expected_version + 1
}

pub open spec fn conflict_message(stream_id: Seq<char>, expected_version: i64) -> Seq<char> {
    "Concurrency conflict on stream '"@ + stream_id + "' at version "@ + signed_decimal(expected_version as int)
}

/// Classify a failed insert: a violated uniqueness of (stream, version) is
/// a concurrency conflict at the expected version; anything else is
/// internal, described by `detail`.
pub fn persist_failure(unique_violation: bool, stream_id: &str, expected_version: i64, detail: &str) -> (r: PersistFailure)
    ensures
        unique_violation ==> (r is Conflict && r.text() == conflict_message(stream_id@, expected_version)),
        !unique_violation ==> (r is Internal && r.text() == "Failed to persist event: "@ + detail@),
{
    proof {
        reveal_strlit("Concurrency conflict on stream '");
        reveal_strlit("' at version ");
        reveal_strlit("Failed to persist event: ");
    }
    if unique_violation {
        let version = signed_text(expected_version);
        let message = String::from_str("Concurrency conflict on stream '").concat(stream_id).concat(
            "' at version ",
        ).concat(version.as_str());
        PersistFailure::Conflict { message }
    } else {
        PersistFailure::Internal { message: String::from_str("Failed to persist event: ").concat(detail) }
    }
}

/// The failure reported when an event cannot be serialized.
pub fn serialize_failure(detail: &str) -> (r: PersistFailure)
    ensures
        r is Internal && r.text() == "Failed to serialize event: "@ + detail@,
{
    proof {
        reveal_strlit("Failed to serialize event: ");
    }
    PersistFailure::Internal { message: String::from_str("Failed to serialize event: ").concat(detail) }
}

/// Names of the medium events.
pub struct MediumEventTypes;

impl MediumEventTypes {
    pub const MEDIUM_CREATED: &'static str = "MediumCreated";
    pub const MEDIUM_ITEM_CREATED: &'static str = "MediumItemCreated";
    pub const MEDIUM_UPDATED: &'static str = "MediumUpdated";
}

/// Events of the medium aggregate, by the id of the medium they concern.
#[derive(Debug)]
pub enum MediumEvent {
    MediumCreated { medium_id: u128 },
    MediumItemCreated { medium_id: u128 },
    MediumUpdated { medium_id: u128 },
}

impl StorableEvent for MediumEvent {
    open spec fn category() -> Seq<char> {
        "Medium"@
    }

    open spec fn owner(&self) -> u128 {
        match self {
            MediumEvent::MediumCreated { medium_id } => *medium_id,
            MediumEvent::MediumItemCreated { medium_id } => *medium_id,
            MediumEvent::MediumUpdated { medium_id } => *medium_id,
        }
    }

    open spec fn type_label(&self) -> Seq<char> {
        match self {
            MediumEvent::MediumCreated { .. } => "MediumCreated"@,
            MediumEvent::MediumItemCreated { .. } => "MediumItemCreated"@,
            MediumEvent::MediumUpdated { .. } => "MediumUpdated"@,
        }
    }

    open spec fn labels() -> Seq<Seq<char>> {
        seq!["MediumCreated"@, "MediumItemCreated"@, "MediumUpdated"@]
    }

    fn aggregate_type() -> (r: &'static str) {
        proof {
            reveal_strlit("Medium");
        }
        "Medium"
    }

    fn aggregate_id(&self) -> (r: String) {
        match self {
            MediumEvent::MediumCreated { medium_id } => uuid_string(*medium_id),
            MediumEvent::MediumItemCreated { medium_id } => uuid_string(*medium_id),
            MediumEvent::MediumUpdated { medium_id } => uuid_string(*medium_id),
        }
    }

    fn event_type_name(&self) -> (r: &'static str) {
        match self {
            MediumEvent::MediumCreated { .. } => MediumEventTypes::MEDIUM_CREATED,
            MediumEvent::MediumItemCreated { .. } => MediumEventTypes::MEDIUM_ITEM_CREATED,
            MediumEvent::MediumUpdated { .. } => MediumEventTypes::MEDIUM_UPDATED,
        }
    }

    fn all_event_types() -> (r: Vec<&'static str>) {
        let r = vec![
            MediumEventTypes::MEDIUM_CREATED,
            MediumEventTypes::MEDIUM_ITEM_CREATED,
            MediumEventTypes::MEDIUM_UPDATED,
        ];
        r
    }
}

/// Names of the user events.
pub struct UserEventTypes;

impl UserEventTypes {
    pub const USER_CREATED: &'static str = "UserCreated";
    pub const USER_UPDATED: &'static str = "UserUpdated";
    pub const QUOTA_RESERVED: &'static str = "QuotaReserved";
    pub const QUOTA_COMMITTED: &'static str = "QuotaCommitted";
    pub const QUOTA_RELEASED: &'static str = "QuotaReleased";
}

/// Events of the user aggregate, by the id of the aggregate they concern.
#[derive(Debug)]
pub enum UserEvent {
    UserCreated { user_id: u128 },
    UserUpdated { user_id: u128 },
    QuotaReserved { user_id: u128 },
    QuotaCommitted { user_id: u128 },
    QuotaReleased { user_id: u128 },
}

impl StorableEvent for UserEvent {
    open spec fn category() -> Seq<char> {
        "User"@
    }

    open spec fn owner(&self) -> u128 {
        match self {
            UserEvent::UserCreated { user_id } => *user_id,
            UserEvent::UserUpdated { user_id } => *user_id,
            UserEvent::QuotaReserved { user_id } => *user_id,
            UserEvent::QuotaCommitted { user_id } => *user_id,
            UserEvent::QuotaReleased { user_id } => *user_id,
        }
    }

    open spec fn type_label(&self) -> Seq<char> {
        match self {
            UserEvent::UserCreated { .. } => "UserCreated"@,
            UserEvent::UserUpdated { .. } => "UserUpdated"@,
            UserEvent::QuotaReserved { .. } => "QuotaReserved"@,
            UserEvent::QuotaCommitted { .. } => "QuotaCommitted"@,
            UserEvent::QuotaReleased { .. } => "QuotaReleased"@,
        }
    }

    open spec fn labels() -> Seq<Seq<char>> {
        seq!["UserCreated"@, "UserUpdated"@, "QuotaReserved"@, "QuotaCommitted"@, "QuotaReleased"@]
    }

    fn aggregate_type() -> (r: &'static str) {
        proof {
            reveal_strlit("User");
        }
        "User"
    }

    fn aggregate_id(&self) -> (r: String) {
        match self {
            UserEvent::UserCreated { user_id } => uuid_string(*user_id),
            UserEvent::UserUpdated { user_id } => uuid_string(*user_id),
            UserEvent::QuotaReserved { user_id } => uuid_string(*user_id),
            UserEvent::QuotaCommitted { user_id } => uuid_string(*user_id),
            UserEvent::QuotaReleased { user_id } => uuid_string(*user_id),
        }
    }

    fn event_type_name(&self) -> (r: &'static str) {
        match self {
            UserEvent::UserCreated { .. } => UserEventTypes::USER_CREATED,
            UserEvent::UserUpdated { .. } => UserEventTypes::USER_UPDATED,
            UserEvent::QuotaReserved { .. } => UserEventTypes::QUOTA_RESERVED,
            UserEvent::QuotaCommitted { .. } => UserEventTypes::QUOTA_COMMITTED,
            UserEvent::QuotaReleased { .. } => UserEventTypes::QUOTA_RELEASED,
        }
    }

    fn all_event_types() -> (r: Vec<&'static str>) {
        vec![
            UserEventTypes::USER_CREATED,
            UserEventTypes::USER_UPDATED,
            UserEventTypes::QUOTA_RESERVED,
            UserEventTypes::QUOTA_COMMITTED,
            UserEventTypes::QUOTA_RELEASED,
        ]
    }
}

/// Names of the metadata events.
pub struct MetadataEventTypes;

impl MetadataEventTypes {
    pub const EXTRACTION_STARTED: &'static str = "MetadataExtractionStarted";
    pub const EXTRACTED: &'static str = "MetadataExtracted";
    pub const EXTRACTION_FAILED: &'static str = "MetadataExtractionFailed";
}

/// Events of the metadata aggregate, by the id of the aggregate they concern.
#[derive(Debug)]
pub enum MetadataEvent {
    ExtractionStarted { medium_id: u128 },
    Extracted { medium_id: u128 },
    ExtractionFailed { medium_id: u128 },
}

impl StorableEvent for MetadataEvent {
    open spec fn category() -> Seq<char> {
        "Metadata"@
    }

    open spec fn owner(&self) -> u128 {
        match self {
            MetadataEvent::ExtractionStarted { medium_id } => *medium_id,
            MetadataEvent::Extracted { medium_id } => *medium_id,
            MetadataEvent::ExtractionFailed { medium_id } => *medium_id,
        }
    }

    open spec fn type_label(&self) -> Seq<char> {
        match self {
            MetadataEvent::ExtractionStarted { .. } => "MetadataExtractionStarted"@,
            MetadataEvent::Extracted { .. } => "MetadataExtracted"@,
            MetadataEvent::ExtractionFailed { .. } => "MetadataExtractionFailed"@,
        }
    }

    open spec fn labels() -> Seq<Seq<char>> {
        seq!["MetadataExtractionStarted"@, "MetadataExtracted"@, "MetadataExtractionFailed"@]
    }

    fn aggregate_type() -> (r: &'static str) {
        proof {
            reveal_strlit("Metadata");
        }
        "Metadata"
    }

    fn aggregate_id(&self) -> (r: String) {
        match self {
            MetadataEvent::ExtractionStarted { medium_id } => uuid_string(*medium_id),
            MetadataEvent::Extracted { medium_id } => uuid_string(*medium_id),
            MetadataEvent::ExtractionFailed { medium_id } => uuid_string(*medium_id),
        }
    }

    fn event_type_name(&self) -> (r: &'static str) {
        match self {
            MetadataEvent::ExtractionStarted { .. } => MetadataEventTypes::EXTRACTION_STARTED,
            MetadataEvent::Extracted { .. } => MetadataEventTypes::EXTRACTED,
            MetadataEvent::ExtractionFailed { .. } => MetadataEventTypes::EXTRACTION_FAILED,
        }
    }

    fn all_event_types() -> (r: Vec<&'static str>) {
        vec![
            MetadataEventTypes::EXTRACTION_STARTED,
            MetadataEventTypes::EXTRACTED,
            MetadataEventTypes::EXTRACTION_FAILED,
        ]
    }
}

/// Names of the task events.
pub struct TaskEventTypes;

impl TaskEventTypes {
    pub const TASK_CREATED: &'static str = "TaskCreated";
    pub const TASK_STARTED: &'static str = "TaskStarted";
    pub const TASK_COMPLETED: &'static str = "TaskCompleted";
    pub const TASK_FAILED: &'static str = "TaskFailed";
}

/// Events of the task aggregate, by the id of the aggregate they concern.
#[derive(Debug)]
pub enum TaskEvent {
    TaskCreated { task_id: u128 },
    TaskStarted { task_id: u128 },
    TaskCompleted { task_id: u128 },
    TaskFailed { task_id: u128 },
}

impl StorableEvent for TaskEvent {
    open spec fn category() -> Seq<char> {
        "Task"@
    }

    open spec fn owner(&self) -> u128 {
        match self {
            TaskEvent::TaskCreated { task_id } => *task_id,
            TaskEvent::TaskStarted { task_id } => *task_id,
            TaskEvent::TaskCompleted { task_id } => *task_id,
            TaskEvent::TaskFailed { task_id } => *task_id,
        }
    }

    open spec fn type_label(&self) -> Seq<char> {
        match self {
            TaskEvent::TaskCreated { .. } => "TaskCreated"@,
            TaskEvent::TaskStarted { .. } => "TaskStarted"@,
            TaskEvent::TaskCompleted { .. } => "TaskCompleted"@,
            TaskEvent::TaskFailed { .. } => "TaskFailed"@,
        }
    }

    open spec fn labels() -> Seq<Seq<char>> {
        seq!["TaskCreated"@, "TaskStarted"@, "TaskCompleted"@, "TaskFailed"@]
    }

    fn aggregate_type() -> (r: &'static str) {
        proof {
            reveal_strlit("Task");
        }
        "Task"
    }

    fn aggregate_id(&self) -> (r: String) {
        match self {
            TaskEvent::TaskCreated { task_id } => uuid_string(*task_id),
            TaskEvent::TaskStarted { task_id } => uuid_string(*task_id),
            TaskEvent::TaskCompleted { task_id } => uuid_string(*task_id),
            TaskEvent::TaskFailed { task_id } => uuid_string(*task_id),
        }
    }

    fn event_type_name(&self) -> (r: &'static str) {
        match self {
            TaskEvent::TaskCreated { .. } => TaskEventTypes::TASK_CREATED,
            TaskEvent::TaskStarted { .. } => TaskEventTypes::TASK_STARTED,
            TaskEvent::TaskCompleted { .. } => TaskEventTypes::TASK_COMPLETED,
            TaskEvent::TaskFailed { .. } => TaskEventTypes::TASK_FAILED,
        }
    }

    fn all_event_types() -> (r: Vec<&'static str>) {
        vec![
            TaskEventTypes::TASK_CREATED,
            TaskEventTypes::TASK_STARTED,
            TaskEventTypes::TASK_COMPLETED,
            TaskEventTypes::TASK_FAILED,
        ]
    }
}

proof fn lemma_keys_differ(c1: Seq<char>, c2: Seq<char>, x: u128, y: u128, j: int)
    requires
        0 <= j < c1.len(),
        j < c2.len(),
        c1[j] != c2[j],
    ensures
        stored_stream_key(c1, x) != stored_stream_key(c2, y),
{
    assert(stored_stream_key(c1, x)[j] == c1[j]);
    assert(stored_stream_key(c2, y)[j] == c2[j]);
}

/// Each kind of storable event has its own aggregate category, so events of
/// different kinds are never persisted to the same stream, whatever their
/// owners.
pub proof fn lemma_kinds_keep_apart(x: u128, y: u128)
    ensures
        MediumEvent::category() != UserEvent::category(),
        MediumEvent::category() != MetadataEvent::category(),
        MediumEvent::category() != TaskEvent::category(),
        UserEvent::category() != MetadataEvent::category(),
        UserEvent::category() != TaskEvent::category(),
        MetadataEvent::category() != TaskEvent::category(),
        stored_stream_key(MediumEvent::category(), x) != stored_stream_key(UserEvent::category(), y),
        stored_stream_key(MediumEvent::category(), x) != stored_stream_key(MetadataEvent::category(), y),
        stored_stream_key(MediumEvent::category(), x) != stored_stream_key(TaskEvent::category(), y),
        stored_stream_key(UserEvent::category(), x) != stored_stream_key(MetadataEvent::category(), y),
        stored_stream_key(UserEvent::category(), x) != stored_stream_key(TaskEvent::category(), y),
        stored_stream_key(MetadataEvent::category(), x) != stored_stream_key(TaskEvent::category(), y),
{
    reveal_strlit("Medium");
    reveal_strlit("User");
    reveal_strlit("Metadata");
    reveal_strlit("Task");
    let m = MediumEvent::category();
    let u = UserEvent::category();
    let d = MetadataEvent::category();
    let t = TaskEvent::category();
    lemma_keys_differ(m, u, x, y, 0);
    lemma_keys_differ(m, d, x, y, 2);
    lemma_keys_differ(m, t, x, y, 0);
    lemma_keys_differ(u, d, x, y, 0);
    lemma_keys_differ(u, t, x, y, 0);
    lemma_keys_differ(d, t, x, y, 0);
    lemma_keys_differ(u, m, y, x, 0);
    lemma_keys_differ(d, m, y, x, 2);
    lemma_keys_differ(t, m, y, x, 0);
    lemma_keys_differ(d, u, y, x, 0);
    lemma_keys_differ(t, u, y, x, 0);
    lemma_keys_differ(t, d, y, x, 0);
}

/// A medium event's type name is one of the medium event type names, and
/// those names are distinct.
pub proof fn lemma_medium_names(e: MediumEvent)
    ensures
        MediumEvent::labels().contains(e.type_label()),
        MediumEvent::labels().no_duplicates(),
{
    reveal_strlit("MediumCreated");
    reveal_strlit("MediumItemCreated");
    reveal_strlit("MediumUpdated");
    assert("MediumCreated"@[6] != "MediumUpdated"@[6]);
    assert(MediumEvent::labels()[0] == "MediumCreated"@);
    assert(MediumEvent::labels()[1] == "MediumItemCreated"@);
    assert(MediumEvent::labels()[2] == "MediumUpdated"@);
}

/// A user event's type name is one of the user event type names, and those
/// names are distinct.
pub proof fn lemma_user_names(e: UserEvent)
    ensures
        UserEvent::labels().contains(e.type_label()),
        UserEvent::labels().no_duplicates(),
{
    reveal_strlit("UserCreated");
    reveal_strlit("UserUpdated");
    reveal_strlit("QuotaReserved");
    reveal_strlit("QuotaCommitted");
    reveal_strlit("QuotaReleased");
    assert("UserCreated"@[4] != "UserUpdated"@[4]);
    assert("QuotaReserved"@[7] != "QuotaReleased"@[7]);
    assert(UserEvent::labels()[0] == "UserCreated"@);
    assert(UserEvent::labels()[1] == "UserUpdated"@);
    assert(UserEvent::labels()[2] == "QuotaReserved"@);
    assert(UserEvent::labels()[3] == "QuotaCommitted"@);
    assert(UserEvent::labels()[4] == "QuotaReleased"@);
}

/// A metadata event's type name is one of the metadata event type names,
/// and those names are distinct.
pub proof fn lemma_metadata_names(e: MetadataEvent)
    ensures
        MetadataEvent::labels().contains(e.type_label()),
        MetadataEvent::labels().no_duplicates(),
{
    reveal_strlit("MetadataExtractionStarted");
    assert("MetadataExtractionStarted"@.len() == 25);
    reveal_strlit("MetadataExtracted");
    assert("MetadataExtracted"@.len() == 17);
    reveal_strlit("MetadataExtractionFailed");
    assert("MetadataExtractionFailed"@.len() == 24);
    assert(MetadataEvent::labels()[0] == "MetadataExtractionStarted"@);
    assert(MetadataEvent::labels()[1] == "MetadataExtracted"@);
    assert(MetadataEvent::labels()[2] == "MetadataExtractionFailed"@);
}

/// A task event's type name is one of the task event type names, and those
/// names are distinct.
pub proof fn lemma_task_names(e: TaskEvent)
    ensures
        TaskEvent::labels().contains(e.type_label()),
        TaskEvent::labels().no_duplicates(),
{
    reveal_strlit("TaskCreated");
    assert("TaskCreated"@.len() == 11);
    reveal_strlit("TaskStarted");
    assert("TaskStarted"@.len() == 11);
    reveal_strlit("TaskCompleted");
    assert("TaskCompleted"@.len() == 13);
    reveal_strlit("TaskFailed");
    assert("TaskFailed"@.len() == 10);
    assert("TaskCreated"@[4] != "TaskStarted"@[4]);
    assert(TaskEvent::labels()[0] == "TaskCreated"@);
    assert(TaskEvent::labels()[1] == "TaskStarted"@);
    assert(TaskEvent::labels()[2] == "TaskCompleted"@);
    assert(TaskEvent::labels()[3] == "TaskFailed"@);
}

} // verus!
