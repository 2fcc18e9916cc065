//! A write run to its end against the tables in memory, with a record of
//! what it asks of the disk.

use crate::rows::push_deep;
use crate::store::{Catalog, CatalogView};
use crate::transaction::{
    step, steps_left, transition, transition_descends, Action, ActionView, Command, CommandView,
    Event, EventView, Outcome, Progress,
};
use vstd::prelude::*;

verus! {

/// What a write asked of the disk: the paths of the files to save and the
/// directories to remove, each in the order of the asking.
pub struct Disk {
    pub saved: Seq<Seq<char>>,
    pub removed: Seq<Seq<char>>,
}

impl Disk {
    pub open spec fn untouched() -> Disk {
        Disk { saved: Seq::empty(), removed: Seq::empty() }
    }
}

/// How a write ended, and what it asked of the disk.
#[derive(Clone, Debug, PartialEq, Eq)]
pub struct Report {
    pub outcome: Outcome,
    pub saved: Vec<String>,
    pub removed: Vec<String>,
}

impl Report {
    pub open spec fn disk(self) -> Disk {
        Disk { saved: self.saved.deep_view(), removed: self.removed.deep_view() }
    }
}

/// The catalog and the record after an action, and the event that reports
/// it. The disk is not modelled: a file is taken to be saved and a directory
/// to be removed as asked.
pub open spec fn perform(c: CatalogView, d: Disk, a: ActionView) -> (CatalogView, Disk, EventView) {
    match a {
        ActionView::SaveImage { path, .. } => (
            c,
            Disk { saved: d.saved.push(path), ..d },
            EventView::ImageSaved(true),
        ),
        ActionView::Begin => (c.begin().0, d, EventView::Began(c.begin().1)),
        ActionView::Run(s) => (c.execute(s).0, d, EventView::Answered(c.execute(s).1)),
        ActionView::RemoveTree(dir) => (
            c,
            Disk { removed: d.removed.push(dir), ..d },
            EventView::TreeRemoved(true),
        ),
        ActionView::Commit => (c.commit().0, d, EventView::Committed(c.commit().1)),
        ActionView::Rollback => (c.rollback().0, d, EventView::RolledBack),
        ActionView::Respond(_) => (c, d, EventView::Start),
    }
}

/// The catalog, the record and the outcome at the end of a write that
/// stands at `p` and has just seen `e`.
pub open spec fn run_from(cmd: CommandView, p: Progress, e: EventView, c: CatalogView, d: Disk) -> (
    CatalogView,
    Disk,
    Outcome,
)
    decreases steps_left(cmd, p),
{
    let next = transition(cmd, p, e);
    match next.1 {
        ActionView::Respond(outcome) => (c, d, outcome),
        action => {
            proof {
                transition_descends(cmd, p, e);
            }
            run_from(
                cmd,
                next.0,
                perform(c, d, action).2,
                perform(c, d, action).0,
                perform(c, d, action).1,
            )
        },
    }
}

/// The catalog, the record and the outcome at the end of a write.
pub open spec fn run_of(cmd: CommandView, c: CatalogView) -> (CatalogView, Disk, Outcome) {
    run_from(cmd, Progress::initial(), EventView::Start, c, Disk::untouched())
}

/// Runs a write to its end.
pub fn run(catalog: &mut Catalog, cmd: &Command) -> (report: Report)
    requires
        old(catalog).wf(),
    ensures
        (final(catalog)@, report.disk(), report.outcome) == run_of(cmd@, old(catalog)@),
        final(catalog).wf(),
{
    let mut p = Progress::start();
    let mut e = Event::Start;
    let mut saved: Vec<String> = Vec::new();
    let mut removed: Vec<String> = Vec::new();
    assert(saved.deep_view() =~= Seq::empty());
    assert(removed.deep_view() =~= Seq::empty());
    loop
        invariant
            catalog.wf(),
            run_from(
                cmd@,
                p,
                e@,
                catalog@,
                Disk { saved: saved.deep_view(), removed: removed.deep_view() },
            ) == run_of(cmd@, old(catalog)@),
        decreases steps_left(cmd@, p),
    {
        let (q, action) = step(cmd, p, &e);
        proof {
            transition_descends(cmd@, p, e@);
        }
        match action {
            Action::Respond(outcome) => {
                return Report { outcome, saved, removed };
            },
            Action::SaveImage { path, .. } => {
                push_deep(&mut saved, path);
                e = Event::ImageSaved(true);
            },
            Action::Begin => {
                let ok = catalog.begin();
                e = Event::Began(ok);
            },
            Action::Run(statement) => {
                let reply = catalog.execute(&statement);
                e = Event::Answered(reply);
            },
            Action::RemoveTree(dir) => {
                push_deep(&mut removed, dir);
                e = Event::TreeRemoved(true);
            },
            Action::Commit => {
                let ok = catalog.commit();
                e = Event::Committed(ok);
            },
            Action::Rollback => {
                let _ = catalog.rollback();
                e = Event::RolledBack;
            },
        }
        p = q;
    }
}

} // verus!
