//! What the coordinator writes back about a device: the version it runs, the
//! version it should run, and whether it is in sync or how far a transfer is.

use vstd::prelude::*;

use crate::metadata::{same_bytes, Metadata, MetadataView};
use crate::protocol::{Status, StatusView};
use crate::text::{decimal, push_decimal, str_eq, text_or, text_or_else};
use crate::views::opt_text;

verus! {

/// Mathematical value of a [`ConditionStatus`].
pub struct ConditionStatusView {
    pub status: Option<bool>,
    pub reason: Option<Seq<char>>,
    pub message: Option<Seq<char>>,
}

/// Mathematical value of a [`Condition`].
pub struct ConditionView {
    pub kind: Seq<char>,
    pub status: ConditionStatusView,
    pub since: Option<Seq<char>>,
}

/// Mathematical value of a [`FirmwareStatus`].
pub struct FirmwareStatusView {
    pub conditions: Seq<ConditionView>,
    pub current: Seq<char>,
    pub target: Seq<char>,
}

/// The state of a condition: true, false or unknown, and why.
#[derive(Debug, Clone, PartialEq, Eq)]
pub struct ConditionStatus {
    pub status: Option<bool>,
    pub reason: Option<String>,
    pub message: Option<String>,
}

/// A named condition of a device.
///
/// `since` is the time at which the condition last turned true, false or
/// unknown, as the registry keeps it. A condition that was set for the first
/// time, or turned, has none: it gets the present time when it is written.
#[derive(Debug, Clone, PartialEq, Eq)]
pub struct Condition {
    pub kind: String,
    pub status: ConditionStatus,
    pub since: Option<String>,
}

/// The conditions of a device. [`Conditions::update`] never adds a second
/// condition of a kind that is already there.
#[derive(Debug, Clone, PartialEq, Eq)]
pub struct Conditions(pub Vec<Condition>);

/// The firmware section of the status of a device.
#[derive(Debug, Clone, PartialEq, Eq)]
pub struct FirmwareStatus {
    pub conditions: Conditions,
    pub current: String,
    pub target: String,
}

impl View for ConditionStatus {
    type V = ConditionStatusView;

    open spec fn view(&self) -> ConditionStatusView {
        ConditionStatusView {
            status: self.status,
            reason: opt_text(self.reason),
            message: opt_text(self.message),
        }
    }
}

impl View for Condition {
    type V = ConditionView;

    open spec fn view(&self) -> ConditionView {
        ConditionView { kind: self.kind@, status: self.status@, since: opt_text(self.since) }
    }
}

impl View for Conditions {
    type V = Seq<ConditionView>;

    open spec fn view(&self) -> Seq<ConditionView> {
        self.0@.map_values(|c: Condition| c@)
    }
}

impl View for FirmwareStatus {
    type V = FirmwareStatusView;

    open spec fn view(&self) -> FirmwareStatusView {
        FirmwareStatusView {
            conditions: self.conditions@,
            current: self.current@,
            target: self.target@,
        }
    }
}

/// The place of the first condition of kind `kind` among the first `n`
/// conditions, or `n` where there is none.
pub open spec fn position(conditions: Seq<ConditionView>, kind: Seq<char>, n: int) -> int
    decreases n,
{
    if n <= 0 {
        0
    } else {
        let before = position(conditions, kind, n - 1);
        if before < n - 1 {
            before
        } else if conditions[n - 1].kind == kind {
            n - 1
        } else {
            n
        }
    }
}

/// The conditions after the one of kind `kind` has been set to `status`: it
/// takes the place of the first one of its kind, or comes last where there is
/// none. It keeps its time where it was there and has not turned; a new
/// condition, and one that turned, has no time yet.
pub open spec fn with_condition(
    conditions: Seq<ConditionView>,
    kind: Seq<char>,
    status: ConditionStatusView,
) -> Seq<ConditionView> {
    let at = position(conditions, kind, conditions.len() as int);
    if at < conditions.len() {
        let since = if conditions[at].status.status == status.status {
            conditions[at].since
        } else {
            None
        };
        conditions.update(at, ConditionView { kind, status, since })
    } else {
        conditions.push(ConditionView { kind, status, since: None })
    }
}

/// Whether no two of `conditions` are of the same kind.
pub open spec fn distinct_kinds(conditions: Seq<ConditionView>) -> bool {
    forall|i: int, j: int|
        0 <= i < j < conditions.len() ==> (#[trigger] conditions[i]).kind != (
        #[trigger] conditions[j]).kind
}

/// Setting a condition keeps the kinds apart: where no two conditions were of
/// the same kind before, none are afterwards.
pub proof fn lemma_with_condition_keeps_kinds_distinct(
    conditions: Seq<ConditionView>,
    kind: Seq<char>,
    status: ConditionStatusView,
)
    requires
        distinct_kinds(conditions),
    ensures
        distinct_kinds(with_condition(conditions, kind, status)),
{
    let n = conditions.len() as int;
    let at = position(conditions, kind, n);
    lemma_position(conditions, kind, n);
    let after = with_condition(conditions, kind, status);
    assert forall|i: int, j: int| 0 <= i < j < after.len() implies (#[trigger] after[i]).kind != (
    #[trigger] after[j]).kind by {
        if at < n {
            assert(after[i].kind == conditions[i].kind);
            assert(after[j].kind == conditions[j].kind);
        } else if j == n {
            assert(after[i] == conditions[i]);
        } else {
            assert(after[i] == conditions[i]);
            assert(after[j] == conditions[j]);
        }
    }
}

/// Merging keeps the kinds apart: the firmware status of a device never
/// holds two conditions of the same kind, if it did not before.
pub proof fn lemma_merged_status_keeps_kinds_distinct(
    before: FirmwareStatusView,
    status: StatusView,
    data: Result<MetadataView, Seq<char>>,
)
    requires
        distinct_kinds(before.conditions),
    ensures
        distinct_kinds(merged_status(before, status, data).conditions),
{
    let none = Seq::<ConditionView>::empty();
    match data {
        Ok(metadata) => {
            if status.version == metadata.version {
                lemma_with_condition_keeps_kinds_distinct(
                    none,
                    "InSync"@,
                    ConditionStatusView { status: Some(true), reason: None, message: None },
                );
            } else {
                let first = ConditionStatusView { status: Some(false), reason: None, message: None };
                lemma_with_condition_keeps_kinds_distinct(before.conditions, "InSync"@, first);
                match status.update {
                    Some(update) => {
                        lemma_with_condition_keeps_kinds_distinct(
                            with_condition(before.conditions, "InSync"@, first),
                            "UpdateProgress"@,
                            ConditionStatusView {
                                status: None,
                                reason: None,
                                message: Some(progress_text(update.offset, metadata.size)),
                            },
                        );
                    },
                    None => {},
                }
            }
        },
        Err(error) => {
            lemma_with_condition_keeps_kinds_distinct(
                none,
                "InSync"@,
                ConditionStatusView {
                    status: Some(false),
                    reason: Some(error),
                    message: Some("Error retrieving firmware metadata"@),
                },
            );
        },
    }
}

proof fn lemma_position(conditions: Seq<ConditionView>, kind: Seq<char>, n: int)
    requires
        0 <= n <= conditions.len(),
    ensures
        0 <= position(conditions, kind, n) <= n,
        position(conditions, kind, n) < n ==> conditions[position(conditions, kind, n)].kind
            == kind,
        forall|j: int|
            0 <= j < position(conditions, kind, n) ==> (#[trigger] conditions[j]).kind != kind,
    decreases n,
{
    if n > 0 {
        lemma_position(conditions, kind, n - 1);
    }
}

impl Conditions {
    /// No conditions.
    pub fn new() -> (conditions: Self)
        ensures
            conditions@ == Seq::<ConditionView>::empty(),
    {
        let conditions = Conditions(Vec::new());
        assert(conditions@ =~= Seq::<ConditionView>::empty());
        conditions
    }

    /// Forgets every condition.
    pub fn clear(&mut self)
        ensures
            final(self)@ == Seq::<ConditionView>::empty(),
    {
        self.0.clear();
        assert(self@ =~= Seq::<ConditionView>::empty());
    }

    /// Sets the condition of kind `kind` to `status`.
    pub fn update(&mut self, kind: &str, status: ConditionStatus)
        ensures
            final(self)@ == with_condition(old(self)@, kind@, status@),
    {
        let ghost before = self@;
        let n = self.0.len();
        let mut i: usize = 0;
        let mut found = false;
        while i < n && !found
            invariant
                i <= n,
                n == self.0@.len(),
                self@ == before,
                position(before, kind@, i as int) == i,
                found ==> i < n && before[i as int].kind == kind@,
            decreases n - i + if found { 0int } else { 1int },
        {
            assert(before[i as int] == self.0@[i as int]@);
            if str_eq(self.0[i].kind.as_str(), kind) {
                found = true;
            } else {
                i += 1;
            }
        }
        proof {
            lemma_position(before, kind@, i as int);
            lemma_position(before, kind@, n as int);
            lemma_position_stops(before, kind@, i as int, n as int);
        }
        if i < n {
            assert(before[i as int] == self.0@[i as int]@);
            let was = self.0.remove(i);
            let since = if same_state(was.status.status, status.status) {
                was.since
            } else {
                None
            };
            let condition = Condition { kind: kind.to_owned(), status, since };
            self.0.insert(i, condition);
            assert(self@ =~= before.update(i as int, condition@));
        } else {
            let condition = Condition { kind: kind.to_owned(), status, since: None };
            self.0.push(condition);
            assert(self@ =~= before.push(condition@));
        }
    }
}

/// Whether two states are the same: both true, both false or both unknown.
pub fn same_state(a: Option<bool>, b: Option<bool>) -> (same: bool)
    ensures
        same == (a == b),
{
    match (a, b) {
        (Some(x), Some(y)) => x == y,
        (None, None) => true,
        _ => false,
    }
}

proof fn lemma_position_stops(conditions: Seq<ConditionView>, kind: Seq<char>, i: int, n: int)
    requires
        0 <= i <= n <= conditions.len(),
        position(conditions, kind, i) == i,
        i < n ==> conditions[i].kind == kind,
    ensures
        position(conditions, kind, n) == i,
    decreases n - i,
{
    if i < n {
        if i + 1 < n {
            lemma_position_stops(conditions, kind, i, n - 1);
        }
    }
}

/// A condition that only says true or false.
pub fn plain(status: bool) -> (condition: ConditionStatus)
    ensures
        condition@ == (ConditionStatusView { status: Some(status), reason: None, message: None }),
{
    ConditionStatus { status: Some(status), reason: None, message: None }
}

/// The two digits of a number below one hundred.
pub open spec fn two_digits(n: nat) -> Seq<char> {
    decimal(n / 10) + decimal(n % 10)
}

/// The share of `size` that `offset` is, in hundredths of a percent, rounded
/// to the nearest.
pub open spec fn hundredths(offset: u32, size: u32) -> nat
    recommends
        size > 0,
{
    ((offset * 10000 + size / 2) / (size as int)) as nat
}

/// The progress of a transfer in percent, with two decimal places: `32.00`
/// for 64 bytes of 200. Of an empty image no share can be taken: the text is
/// then `NaN` for offset 0 and `inf` for any other.
pub open spec fn progress_text(offset: u32, size: u32) -> Seq<char> {
    if size == 0 {
        if offset == 0 {
            "NaN"@
        } else {
            "inf"@
        }
    } else {
        let h = hundredths(offset, size);
        decimal(h / 100) + "."@ + two_digits(h % 100)
    }
}

/// Formats the progress of a transfer.
pub fn format_progress(offset: u32, size: u32) -> (text: String)
    ensures
        text@ == progress_text(offset, size),
{
    if size == 0 {
        if offset == 0 {
            return "NaN".to_owned();
        } else {
            return "inf".to_owned();
        }
    }
    let h: u64 = (offset as u64 * 10000 + size as u64 / 2) / size as u64;
    let frac = h % 100;
    let mut text = String::new();
    push_decimal(&mut text, h / 100);
    text.append(".");
    push_decimal(&mut text, frac / 10);
    push_decimal(&mut text, frac % 10);
    assert(text@ =~= progress_text(offset, size));
    text
}

/// The firmware status of a device after the store has been asked about its
/// image, with the outcome `data`: the metadata, or the reason why there is none.
pub open spec fn merged_status(
    before: FirmwareStatusView,
    status: StatusView,
    data: Result<MetadataView, Seq<char>>,
) -> FirmwareStatusView {
    let none = Seq::<ConditionView>::empty();
    match data {
        Ok(metadata) => FirmwareStatusView {
            current: text_or(status.version, "Unknown"@),
            target: text_or(metadata.version, "Unknown"@),
            conditions: if status.version == metadata.version {
                with_condition(
                    none,
                    "InSync"@,
                    ConditionStatusView { status: Some(true), reason: None, message: None },
                )
            } else {
                let out_of_sync = with_condition(
                    before.conditions,
                    "InSync"@,
                    ConditionStatusView { status: Some(false), reason: None, message: None },
                );
                match status.update {
                    Some(update) => with_condition(
                        out_of_sync,
                        "UpdateProgress"@,
                        ConditionStatusView {
                            status: None,
                            reason: None,
                            message: Some(progress_text(update.offset, metadata.size)),
                        },
                    ),
                    None => out_of_sync,
                }
            },
        },
        Err(error) => FirmwareStatusView {
            current: text_or(status.version, "Unknown"@),
            target: "Unknown"@,
            conditions: with_condition(
                none,
                "InSync"@,
                ConditionStatusView {
                    status: Some(false),
                    reason: Some(error),
                    message: Some("Error retrieving firmware metadata"@),
                },
            ),
        },
    }
}

/// The outcome of asking a store for metadata, taken by its value.
pub open spec fn data_view(data: Result<&Metadata, String>) -> Result<MetadataView, Seq<char>> {
    match data {
        Ok(metadata) => Ok(metadata@),
        Err(error) => Err(error@),
    }
}

/// Brings the firmware status of a device up to date with what the device
/// reported and what the store said.
///
/// With metadata, the current and the wanted version are recorded; a device
/// that runs the wanted version is `InSync` and nothing else; any other is not
/// `InSync`, and where it reports a transfer, `UpdateProgress` says how far it
/// is. Without metadata, the wanted version is unknown and `InSync` is false,
/// with the error as its reason.
pub fn update_status(fwstatus: &mut FirmwareStatus, status: &Status, data: Result<&Metadata, String>)
    ensures
        final(fwstatus)@ == merged_status(old(fwstatus)@, status@, data_view(data)),
{
    match data {
        Ok(metadata) => {
            fwstatus.current = text_or_else(status.version.as_slice(), "Unknown");
            fwstatus.target = text_or_else(metadata.version.as_slice(), "Unknown");
            if same_bytes(status.version.as_slice(), metadata.version.as_slice()) {
                fwstatus.conditions.clear();
                fwstatus.conditions.update("InSync", plain(true));
            } else {
                fwstatus.conditions.update("InSync", plain(false));
                if let Some(update) = &status.update {
                    let progress = format_progress(update.offset, metadata.size);
                    fwstatus.conditions.update(
                        "UpdateProgress",
                        ConditionStatus { status: None, reason: None, message: Some(progress) },
                    );
                }
            }
        },
        Err(error) => {
            fwstatus.conditions.clear();
            fwstatus.current = text_or_else(status.version.as_slice(), "Unknown");
            fwstatus.target = "Unknown".to_owned();
            fwstatus.conditions.update(
                "InSync",
                ConditionStatus {
                    status: Some(false),
                    message: Some("Error retrieving firmware metadata".to_owned()),
                    reason: Some(error),
                },
            );
        },
    }
}

impl Default for FirmwareStatus {
    fn default() -> (status: Self)
        ensures
            status@ == (FirmwareStatusView {
                conditions: Seq::<ConditionView>::empty(),
                current: Seq::<char>::empty(),
                target: Seq::<char>::empty(),
            }),
    {
        FirmwareStatus {
            conditions: Conditions::new(),
            current: String::new(),
            target: String::new(),
        }
    }
}

} // verus!
