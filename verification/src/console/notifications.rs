//! What a user is told when runs change.
use crate::console::model;
use crate::console::model::{status_label, RunRow, RunRowView};
use crate::console::settings::GuiSettings;
use crate::seqs;
use crate::text;
use crate::text::{decimal_text, take_chars};
use crate::types::RunStatus;
use vstd::prelude::*;
use vstd::string::*;

verus! {

#[derive(Debug, Clone, Copy, PartialEq, Eq, Structural)]
pub enum NoticeKind {
    Success,
    Attention,
}

/// What is shown in the console.
#[derive(Debug, PartialEq, Eq)]
pub struct Notice {
    pub kind: NoticeKind,
    pub title: String,
    pub body: String,
}

/// What a `Notice` says.
pub struct NoticeView {
    pub kind: NoticeKind,
    pub title: Seq<char>,
    pub body: Seq<char>,
}

impl View for Notice {
    type V = NoticeView;

    open spec fn view(&self) -> NoticeView {
        NoticeView {
            kind: self.kind,
            title: self.title@,
            body: self.body@,
        }
    }
}

impl DeepView for Notice {
    type V = NoticeView;

    open spec fn deep_view(&self) -> NoticeView {
        self.view()
    }
}

impl Clone for Notice {
    fn clone(&self) -> (copy: Self)
        ensures
            copy@ == self@,
    {
        Notice {
            kind: self.kind,
            title: self.title.clone(),
            body: self.body.clone(),
        }
    }
}

/// What is shown on the desktop.
#[derive(Debug, PartialEq, Eq)]
pub struct NativeNotice {
    pub kind: NoticeKind,
    pub title: String,
    pub body: String,
}

/// What a `NativeNotice` says.
pub struct NativeNoticeView {
    pub kind: NoticeKind,
    pub title: Seq<char>,
    pub body: Seq<char>,
}

impl View for NativeNotice {
    type V = NativeNoticeView;

    open spec fn view(&self) -> NativeNoticeView {
        NativeNoticeView {
            kind: self.kind,
            title: self.title@,
            body: self.body@,
        }
    }
}

impl DeepView for NativeNotice {
    type V = NativeNoticeView;

    open spec fn deep_view(&self) -> NativeNoticeView {
        self.view()
    }
}

impl Clone for NativeNotice {
    fn clone(&self) -> (copy: Self)
        ensures
            copy@ == self@,
    {
        NativeNotice {
            kind: self.kind,
            title: self.title.clone(),
            body: self.body.clone(),
        }
    }
}

/// A run as it was last shown.
#[derive(Debug)]
pub struct PreviousRow {
    pub run_id: String,
    pub status: RunStatus,
    pub attention: bool,
}

/// What a `PreviousRow` says.
pub struct PreviousRowView {
    pub run_id: Seq<char>,
    pub status: RunStatus,
    pub attention: bool,
}

impl View for PreviousRow {
    type V = PreviousRowView;

    open spec fn view(&self) -> PreviousRowView {
        PreviousRowView {
            run_id: self.run_id@,
            status: self.status,
            attention: self.attention,
        }
    }
}

impl DeepView for PreviousRow {
    type V = PreviousRowView;

    open spec fn deep_view(&self) -> PreviousRowView {
        self.view()
    }
}

impl Clone for PreviousRow {
    fn clone(&self) -> (copy: Self)
        ensures
            copy@ == self@,
    {
        PreviousRow {
            run_id: self.run_id.clone(),
            status: self.status,
            attention: self.attention,
        }
    }
}

// ---------------------------------------------------------------------------
// On the desktop
// ---------------------------------------------------------------------------

/// Whether a user wants to be told.
pub open spec fn wanted(settings: GuiSettings) -> spec_fn(NoticeView) -> bool {
    |notice: NoticeView|
        match notice.kind {
            NoticeKind::Success => settings.notify_success,
            NoticeKind::Attention => settings.notify_attention,
        }
}

pub open spec fn calls_attention() -> spec_fn(NoticeView) -> bool {
    |notice: NoticeView| notice.kind == NoticeKind::Attention
}

/// A text cut off with an ellipsis where it is too long.
pub open spec fn ellipsis(value: Seq<char>, max_chars: nat) -> Seq<char> {
    if value.len() <= max_chars {
        value
    } else {
        text::first_chars(
            value,
            if max_chars > 0 {
                (max_chars - 1) as nat
            } else {
                0
            },
        ) + "…"@
    }
}

pub fn bounded_text(value: &str, max_chars: usize) -> (text: String)
    ensures
        text@ == ellipsis(value@, max_chars as nat),
{
    if value.unicode_len() <= max_chars {
        return value.to_owned();
    }
    let keep: usize = if max_chars > 0 {
        max_chars - 1
    } else {
        0
    };
    let mut text = take_chars(value, keep);
    text.append("…");
    text
}

/// A single notice on the desktop. Its title names the run only where the user
/// wants that.
pub open spec fn single_notice(notice: NoticeView, settings: GuiSettings) -> NativeNoticeView {
    NativeNoticeView {
        kind: notice.kind,
        title: if settings.include_run_name {
            ellipsis(notice.title, 80)
        } else {
            "runwatch"@
        },
        body: match notice.kind {
            NoticeKind::Success => "Run completed successfully"@,
            NoticeKind::Attention => ellipsis(notice.body, 160),
        },
    }
}

/// Several notices in one, told by their numbers.
pub open spec fn joint_notice(attention: nat, success: nat) -> NativeNoticeView {
    NativeNoticeView {
        kind: if attention > 0 {
            NoticeKind::Attention
        } else {
            NoticeKind::Success
        },
        title: "runwatch"@,
        body: if attention == 0 {
            text::decimal(success) + " runs completed"@
        } else if success == 0 {
            text::decimal(attention) + " runs need attention"@
        } else {
            text::decimal(attention) + " need attention · "@ + text::decimal(success)
                + " completed"@
        },
    }
}

/// The one notice on the desktop for everything that has changed.
pub open spec fn coalesced(notices: Seq<NoticeView>, settings: GuiSettings) -> Option<
    NativeNoticeView,
> {
    let eligible = notices.filter(wanted(settings));
    let attention = eligible.filter(calls_attention()).len();
    if !settings.native_notifications || eligible.len() == 0 {
        None
    } else if eligible.len() == 1 {
        Some(single_notice(eligible[0], settings))
    } else {
        Some(joint_notice(attention, (eligible.len() - attention) as nat))
    }
}

fn tell_joint(attention: usize, success: usize) -> (notice: NativeNotice)
    ensures
        notice@ == joint_notice(attention as nat, success as nat),
{
    let mut body = if attention == 0 {
        decimal_text(success as u64)
    } else {
        decimal_text(attention as u64)
    };
    if attention == 0 {
        body.append(" runs completed");
    } else if success == 0 {
        body.append(" runs need attention");
    } else {
        body.append(" need attention · ");
        body.append(decimal_text(success as u64).as_str());
        body.append(" completed");
    }
    let kind = if attention > 0 {
        NoticeKind::Attention
    } else {
        NoticeKind::Success
    };
    NativeNotice { kind, title: "runwatch".to_owned(), body }
}

pub fn coalesce_native(notices: &Vec<Notice>, settings: &GuiSettings) -> (native: Option<
    NativeNotice,
>)
    ensures
        native.deep_view() == coalesced(notices.deep_view(), *settings),
{
    if !settings.native_notifications {
        return None;
    }
    let settings = *settings;
    let test = |notice: &Notice| -> (yes: bool)
        ensures
            yes == wanted(settings)(notice.deep_view()),
        {
            match notice.kind {
                NoticeKind::Success => settings.notify_success,
                NoticeKind::Attention => settings.notify_attention,
            }
        };
    let eligible = seqs::select(notices, test, Ghost(wanted(settings)));
    assert(eligible.deep_view().len() == eligible@.len());
    if eligible.len() == 0 {
        return None;
    }
    if eligible.len() == 1 {
        let notice = &eligible[0];
        assert(eligible.deep_view()[0] == notice@);
        let title = if settings.include_run_name {
            bounded_text(notice.title.as_str(), 80)
        } else {
            "runwatch".to_owned()
        };
        let body = match notice.kind {
            NoticeKind::Success => "Run completed successfully".to_owned(),
            NoticeKind::Attention => bounded_text(notice.body.as_str(), 160),
        };
        return Some(NativeNotice { kind: notice.kind, title, body });
    }
    let urgent = |notice: &Notice| -> (yes: bool)
        ensures
            yes == calls_attention()(notice.deep_view()),
        {
            notice.kind == NoticeKind::Attention
        };
    let attention = seqs::count(&eligible, urgent, Ghost(calls_attention()));
    let success = eligible.len() - attention;
    Some(tell_joint(attention, success))
}

// ---------------------------------------------------------------------------
// In the console
// ---------------------------------------------------------------------------

/// What is remembered of a run.
pub open spec fn remembered() -> spec_fn(RunRowView) -> PreviousRowView {
    |row: RunRowView|
        PreviousRowView { run_id: row.run_id, status: row.status, attention: row.attention }
}

/// Holds of what is remembered of a run.
pub open spec fn was(run_id: Seq<char>) -> spec_fn(PreviousRowView) -> bool {
    |row: PreviousRowView| row.run_id == run_id
}

/// What is told of a run that was shown before: its end, or that it needs
/// attention since.
pub open spec fn change_of(previous: PreviousRowView, row: RunRowView) -> Option<NoticeView> {
    if !previous.status.terminal() && row.status.terminal() {
        Some(
            NoticeView {
                kind: if row.status == RunStatus::Succeeded {
                    NoticeKind::Success
                } else {
                    NoticeKind::Attention
                },
                title: row.name,
                body: model::status_word(previous.status) + " -> "@ + model::status_word(
                    row.status,
                ),
            },
        )
    } else if !previous.attention && row.attention {
        Some(
            NoticeView {
                kind: NoticeKind::Attention,
                title: row.name,
                body: match row.attention_reason {
                    Some(reason) => reason,
                    None => "Run requires attention"@,
                },
            },
        )
    } else {
        None
    }
}

/// What is told of a run. Nothing is told of one that was not shown before.
pub open spec fn notice_of(previous: Seq<PreviousRowView>, row: RunRowView) -> Option<NoticeView> {
    match model::last_wanted(previous, was(row.run_id)) {
        Some(before) => change_of(before, row),
        None => None,
    }
}

pub open spec fn notices_of(previous: Seq<PreviousRowView>, rows: Seq<RunRowView>) -> Seq<NoticeView>
    decreases rows.len(),
{
    if rows.len() == 0 {
        Seq::empty()
    } else {
        let before = notices_of(previous, rows.drop_last());
        match notice_of(previous, rows.last()) {
            Some(notice) => before.push(notice),
            None => before,
        }
    }
}

/// The runs as they were last shown.
pub struct TransitionTracker {
    pub previous: Vec<PreviousRow>,
}

impl View for TransitionTracker {
    type V = Seq<PreviousRowView>;

    open spec fn view(&self) -> Seq<PreviousRowView> {
        self.previous.deep_view()
    }
}

impl Default for TransitionTracker {
    fn default() -> (tracker: Self)
        ensures
            tracker@ == Seq::<PreviousRowView>::empty(),
    {
        let tracker = TransitionTracker { previous: Vec::new() };
        assert(tracker.previous.deep_view() =~= Seq::<PreviousRowView>::empty());
        tracker
    }
}

fn tell_change(previous: &PreviousRow, row: &RunRow) -> (notice: Option<Notice>)
    ensures
        notice.deep_view() == change_of(previous@, row@),
{
    if !previous.status.is_terminal() && row.status.is_terminal() {
        let kind = if row.status == RunStatus::Succeeded {
            NoticeKind::Success
        } else {
            NoticeKind::Attention
        };
        let mut body = status_label(previous.status).to_owned();
        body.append(" -> ");
        body.append(status_label(row.status));
        return Some(Notice { kind, title: row.name.clone(), body });
    }
    if !previous.attention && row.attention {
        let body = match &row.attention_reason {
            Some(reason) => reason.clone(),
            None => "Run requires attention".to_owned(),
        };
        return Some(Notice { kind: NoticeKind::Attention, title: row.name.clone(), body });
    }
    None
}

impl TransitionTracker {
    fn tell(&self, row: &RunRow) -> (notice: Option<Notice>)
        ensures
            notice.deep_view() == notice_of(self@, row@),
    {
        let ghost all = self@;
        let ghost mine = was(row@.run_id);
        let mut i: usize = self.previous.len();
        assert(all.len() == self.previous@.len());
        assert(all.take(i as int) =~= all);
        while i > 0
            invariant
                i <= self.previous@.len(),
                all == self@,
                all.len() == self.previous@.len(),
                mine == was(row@.run_id),
                model::last_wanted(all, mine) == model::last_wanted(all.take(i as int), mine),
            decreases i,
        {
            i -= 1;
            let previous = &self.previous[i];
            proof {
                assert(all.take(i + 1).drop_last() =~= all.take(i as int));
                assert(all.take(i + 1).last() == previous@);
            }
            if previous.run_id == row.run_id {
                return tell_change(previous, row);
            }
        }
        None
    }

    /// What is told of the runs, which are then remembered.
    pub fn observe(&mut self, rows: &Vec<RunRow>) -> (notices: Vec<Notice>)
        ensures
            notices.deep_view() == notices_of(old(self)@, rows.deep_view()),
            final(self)@ == rows.deep_view().map_values(remembered()),
    {
        let ghost before = self@;
        let ghost all = rows.deep_view();
        let mut notices: Vec<Notice> = Vec::new();
        let mut previous: Vec<PreviousRow> = Vec::new();
        let mut i: usize = 0;
        assert(all.take(0) =~= Seq::<RunRowView>::empty());
        assert(notices.deep_view() =~= Seq::<NoticeView>::empty());
        while i < rows.len()
            invariant
                i <= rows@.len(),
                all == rows.deep_view(),
                before == self@,
                notices.deep_view() == notices_of(before, all.take(i as int)),
                previous.deep_view() =~= all.map_values(remembered()).take(i as int),
            decreases rows@.len() - i,
        {
            let row = &rows[i];
            proof {
                let now = all.take(i + 1);
                assert(now.drop_last() =~= all.take(i as int));
                assert(now.last() == row@);
                assert(all[i as int] == row@);
            }
            if let Some(notice) = self.tell(row) {
                let ghost earlier = notices;
                notices.push(notice);
                proof {
                    seqs::lemma_deep_push(earlier, notices, notice);
                }
            }
            let kept = PreviousRow {
                run_id: row.run_id.clone(),
                status: row.status,
                attention: row.attention,
            };
            let ghost earlier = previous;
            previous.push(kept);
            proof {
                seqs::lemma_deep_push(earlier, previous, kept);
            }
            i += 1;
        }
        assert(all.take(i as int) =~= all);
        assert(previous.deep_view() =~= all.map_values(remembered()));
        self.previous = previous;
        notices
    }
}

// ---------------------------------------------------------------------------
// Laws
// ---------------------------------------------------------------------------

/// Nothing is told of runs that are shown for the first time.
pub proof fn first_sight_is_silent(rows: Seq<RunRowView>)
    ensures
        notices_of(Seq::empty(), rows).len() == 0,
    decreases rows.len(),
{
    if rows.len() > 0 {
        first_sight_is_silent(rows.drop_last());
    }
}

proof fn lemma_remembered(rows: Seq<RunRowView>, i: int)
    requires
        0 <= i < rows.len(),
        forall|a: int, b: int|
            0 <= a < b < rows.len() ==> #[trigger] rows[a].run_id != #[trigger] rows[b].run_id,
    ensures
        model::last_wanted(rows.map_values(remembered()), was(rows[i].run_id)) == Some(
            remembered()(rows[i]),
        ),
    decreases rows.len(),
{
    let kept = rows.map_values(remembered());
    if i < rows.len() - 1 {
        assert(rows[rows.len() - 1].run_id != rows[i].run_id);
        assert(kept.drop_last() =~= rows.drop_last().map_values(remembered()));
        lemma_remembered(rows.drop_last(), i);
    }
}

/// Showing the same runs again tells nothing: each change is told once.
pub proof fn change_is_told_once(rows: Seq<RunRowView>)
    requires
        forall|a: int, b: int|
            0 <= a < b < rows.len() ==> #[trigger] rows[a].run_id != #[trigger] rows[b].run_id,
    ensures
        notices_of(rows.map_values(remembered()), rows).len() == 0,
{
    lemma_silent(rows, rows.len());
    assert(rows.take(rows.len() as int) =~= rows);
}

proof fn lemma_silent(rows: Seq<RunRowView>, count: nat)
    requires
        count <= rows.len(),
        forall|a: int, b: int|
            0 <= a < b < rows.len() ==> #[trigger] rows[a].run_id != #[trigger] rows[b].run_id,
    ensures
        notices_of(rows.map_values(remembered()), rows.take(count as int)).len() == 0,
    decreases count,
{
    if count > 0 {
        lemma_silent(rows, (count - 1) as nat);
        let now = rows.take(count as int);
        assert(now.drop_last() =~= rows.take(count - 1));
        lemma_remembered(rows, count - 1);
    }
}

/// A name that the user does not want on the desktop is not in a notice there.
pub proof fn private_name_stays_private(notices: Seq<NoticeView>, settings: GuiSettings)
    requires
        !settings.include_run_name,
    ensures
        coalesced(notices, settings) matches Some(native) ==> native.title == "runwatch"@,
{
}

} // verus!
