//! What the drawing code computes before it draws: the counts of the
//! overview, the widths of the table's columns, texts cut to a width, and
//! the words and signs that stand for a status.

use vstd::prelude::*;
use vstd::string::{StrSliceExecFns, StringExecFns};
use crate::instance::{status_of, Instance, Status};
use crate::ui::UiState;

verus! {

/// How many instances of a list have a given status.
pub open spec fn count_status(list: Seq<Instance>, status: Status) -> nat
    decreases list.len(),
{
    if list.len() == 0 {
        0
    } else {
        count_status(list.drop_last(), status) + if status_of(list.last().status@) == status {
            1nat
        } else {
            0nat
        }
    }
}

/// The counts that the overview shows.
#[derive(Debug, Clone, Copy, PartialEq, Eq, Structural)]
pub struct StatusCounts {
    /// All instances on display.
    pub total: usize,
    /// Those that run.
    pub running: usize,
    /// Those that are terminated.
    pub stopped: usize,
    /// All the others.
    pub other: usize,
}

impl UiState {
    /// Counts the instances on display by status.
    pub fn status_counts(&self) -> (r: StatusCounts)
        requires
            self.wf(),
        ensures
            r.total == self@.instances.len(),
            r.running == count_status(self@.instances, Status::Running),
            r.stopped == count_status(self@.instances, Status::Terminated),
            r.other == r.total - r.running - r.stopped,
    {
        let n = self.instance_count();
        let mut running: usize = 0;
        let mut stopped: usize = 0;
        let mut i: usize = 0;
        while i < n
            invariant
                self.wf(),
                n == self@.instances.len(),
                i <= n,
                running == count_status(self@.instances.take(i as int), Status::Running),
                stopped == count_status(self@.instances.take(i as int), Status::Terminated),
                running + stopped <= i,
            decreases n - i,
        {
            proof {
                assert(self@.instances.take(i + 1).drop_last() =~= self@.instances.take(i as int));
            }
            let status = self.instance(i).lifecycle();
            if status == Status::Running {
                running += 1;
            } else if status == Status::Terminated {
                stopped += 1;
            }
            i += 1;
        }
        proof {
            assert(self@.instances.take(n as int) =~= self@.instances);
        }
        StatusCounts { total: n, running, stopped, other: n - running - stopped }
    }
}

/// The widths of the table's columns, in characters.
#[derive(Debug, Clone, Copy, PartialEq, Eq, Structural)]
pub struct ColumnWidths {
    pub name: usize,
    pub status: usize,
    pub machine_type: usize,
    pub zone: usize,
    pub network: usize,
    pub internal_ip: usize,
    pub external_ip: usize,
}

/// What borders, margins and separators take of the table's width.
pub const TABLE_OVERHEAD: u16 = 20;

/// A share of a width, in hundredths.
pub open spec fn share(available: int, percent: int) -> int {
    available * percent / 100
}

/// The widths of the columns in a table of a given width: what is left
/// after the overhead, shared out in fixed proportions.
pub open spec fn widths_for(width: u16) -> ColumnWidths
    recommends
        width >= TABLE_OVERHEAD,
{
    let available = width - TABLE_OVERHEAD;
    ColumnWidths {
        name: share(available, 18) as usize,
        status: share(available, 10) as usize,
        machine_type: share(available, 18) as usize,
        zone: share(available, 15) as usize,
        network: share(available, 12) as usize,
        internal_ip: share(available, 14) as usize,
        external_ip: share(available, 13) as usize,
    }
}

/// Shares the width of the table out among its columns. A table narrower
/// than its overhead has no columns.
pub fn column_widths(width: u16) -> (r: Option<ColumnWidths>)
    ensures
        r is Some == (width >= TABLE_OVERHEAD),
        r is Some ==> r->0 == widths_for(width),
{
    if width < TABLE_OVERHEAD {
        None
    } else {
        let available: usize = (width - TABLE_OVERHEAD) as usize;
        Some(
            ColumnWidths {
                name: available * 18 / 100,
                status: available * 10 / 100,
                machine_type: available * 18 / 100,
                zone: available * 15 / 100,
                network: available * 12 / 100,
                internal_ip: available * 14 / 100,
                external_ip: available * 13 / 100,
            },
        )
    }
}

/// The margin on each side of a popup that takes `percent` hundredths of
/// the screen; none where the popup takes all of it or more.
pub fn side_margin(percent: u16) -> (r: u16)
    ensures
        percent <= 100 ==> r == (100 - percent) / 2,
        percent > 100 ==> r == 0,
{
    if percent > 100 {
        0
    } else {
        (100 - percent) / 2
    }
}

/// A text cut to a width: a text that fits stays as it is; a longer one
/// keeps its first `width - 1` characters and ends in an ellipsis. Nothing
/// fits into a width of zero.
pub open spec fn fitted(s: Seq<char>, width: nat) -> Seq<char> {
    if s.len() <= width {
        s
    } else if width == 0 {
        Seq::empty()
    } else {
        s.take(width - 1).push('…')
    }
}

/// Cuts a text to a width.
pub fn fit(text: &str, width: usize) -> (r: String)
    ensures
        r@ == fitted(text@, width as nat),
{
    let len = text.unicode_len();
    if len <= width {
        String::from_str(text)
    } else if width == 0 {
        String::new()
    } else {
        let mut out = String::from_str(text.substring_char(0, width - 1));
        out.push('…');
        proof {
            assert(text@.subrange(0, width - 1) =~= text@.take(width - 1));
        }
        out
    }
}

/// The role of a colour in a theme.
#[derive(Debug, Clone, Copy, PartialEq, Eq, Structural)]
pub enum Tone {
    Success,
    Warning,
    Error,
    Secondary,
    /// Dimmed, for what is not active.
    Muted,
    /// The ordinary colour of text.
    Plain,
}

/// The tone in which a status is shown.
pub open spec fn tone_of(status: Status) -> Tone {
    match status {
        Status::Running => Tone::Success,
        Status::Terminated => Tone::Error,
        Status::Stopping => Tone::Warning,
        Status::Provisioning => Tone::Warning,
        Status::Staging => Tone::Secondary,
        Status::Suspended => Tone::Muted,
        Status::Repairing => Tone::Warning,
        Status::Pending => Tone::Warning,
        Status::Unknown => Tone::Plain,
    }
}

/// The sign that stands for a status.
pub open spec fn symbol_of(status: Status) -> Seq<char> {
    match status {
        Status::Running => "🟢"@,
        Status::Terminated => "🔴"@,
        Status::Stopping => "🟠"@,
        Status::Provisioning => "🟡"@,
        Status::Staging => "🔄"@,
        Status::Suspended => "💤"@,
        Status::Repairing => "🟡"@,
        Status::Pending => "🟡"@,
        Status::Unknown => "❓"@,
    }
}

/// The word that stands for a status.
pub open spec fn word_of(status: Status) -> Seq<char> {
    match status {
        Status::Running => "RUNNING"@,
        Status::Terminated => "TERMINATED"@,
        Status::Stopping => "STOPPING"@,
        Status::Provisioning => "PROVISIONING"@,
        Status::Staging => "STAGING"@,
        Status::Suspended => "SUSPENDED"@,
        Status::Repairing => "REPAIRING"@,
        Status::Pending => "PENDING"@,
        Status::Unknown => "UNKNOWN"@,
    }
}

impl Status {
    /// The tone in which the status is shown.
    pub fn tone(self) -> (r: Tone)
        ensures
            r == tone_of(self),
    {
        match self {
            Status::Running => Tone::Success,
            Status::Terminated => Tone::Error,
            Status::Stopping => Tone::Warning,
            Status::Provisioning => Tone::Warning,
            Status::Staging => Tone::Secondary,
            Status::Suspended => Tone::Muted,
            Status::Repairing => Tone::Warning,
            Status::Pending => Tone::Warning,
            Status::Unknown => Tone::Plain,
        }
    }

    /// The sign that stands for the status.
    pub fn symbol(self) -> (r: &'static str)
        ensures
            r@ == symbol_of(self),
    {
        match self {
            Status::Running => "🟢",
            Status::Terminated => "🔴",
            Status::Stopping => "🟠",
            Status::Provisioning => "🟡",
            Status::Staging => "🔄",
            Status::Suspended => "💤",
            Status::Repairing => "🟡",
            Status::Pending => "🟡",
            Status::Unknown => "❓",
        }
    }

    /// The word that stands for the status.
    pub fn word(self) -> (r: &'static str)
        ensures
            r@ == word_of(self),
    {
        match self {
            Status::Running => "RUNNING",
            Status::Terminated => "TERMINATED",
            Status::Stopping => "STOPPING",
            Status::Provisioning => "PROVISIONING",
            Status::Staging => "STAGING",
            Status::Suspended => "SUSPENDED",
            Status::Repairing => "REPAIRING",
            Status::Pending => "PENDING",
            Status::Unknown => "UNKNOWN",
        }
    }

    /// The status as the table shows it: its sign, a space, its word.
    pub fn label(self) -> (r: String)
        ensures
            r@ == symbol_of(self) + " "@ + word_of(self),
    {
        String::from_str(self.symbol()).concat(" ").concat(self.word())
    }
}

} // verus!
