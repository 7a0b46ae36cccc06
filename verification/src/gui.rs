//! The desktop view's state: the records on display and the single
//! selected row. The widget shell around it only draws this state and
//! feeds clicks back in; every decision about the state lives here.

use vstd::prelude::*;
use crate::errors::Error;
use crate::models::Instrument;

verus! {

/// The desktop view's state: a table of records and at most one
/// selected row, tracked as an index into the displayed sequence.
pub struct GuiApp {
    /// The records on display, in fetched order.
    pub instruments: Vec<Instrument>,
    /// The selected row, as an index into `instruments`.
    pub selected_row: Option<usize>,
}

impl GuiApp {
    /// The selection, when set, points into the displayed sequence.
    pub open spec fn wf(&self) -> bool {
        self.selected_row matches Some(i) ==> i < self.instruments@.len()
    }

    /// Opens on an empty table with nothing selected; the shell fetches
    /// and hands the outcome to `refresh` straight away.
    pub fn new() -> (r: GuiApp)
        ensures
            r.wf(),
            r.instruments@ == Seq::<Instrument>::empty(),
            r.selected_row is None,
    {
        GuiApp { instruments: Vec::new(), selected_row: None }
    }

    /// Replaces the display with a fresh fetch's outcome. On success
    /// the table shows exactly the fetched records and the selection is
    /// cleared — an index must not outlive the sequence it pointed
    /// into. On failure the display stays as it was and the error is
    /// handed back for the shell to show: a failed fetch is recoverable
    /// and is never mapped to an empty table.
    pub fn refresh(&mut self, fetch: Result<Vec<Instrument>, Error>) -> (err: Option<Error>)
        requires
            old(self).wf(),
        ensures
            final(self).wf(),
            fetch matches Ok(v) ==> (final(self).instruments == v && final(self).selected_row
                is None && err is None),
            fetch matches Err(e) ==> (*final(self) == *old(self) && err == Some(e)),
    {
        match fetch {
            Ok(v) => {
                self.instruments = v;
                self.selected_row = None;
                None
            },
            Err(e) => Some(e),
        }
    }

    /// Clears the table: no rows and — whatever was selected before —
    /// no selection, so no stale index survives into the now-empty
    /// sequence. The store itself is untouched.
    pub fn clear(&mut self)
        ensures
            final(self).wf(),
            final(self).instruments@ == Seq::<Instrument>::empty(),
            final(self).selected_row is None,
    {
        self.instruments = Vec::new();
        self.selected_row = None;
    }

    /// Selects the clicked row when it exists; a click past the table's
    /// end changes nothing.
    pub fn select_row(&mut self, index: usize)
        requires
            old(self).wf(),
        ensures
            final(self).wf(),
            final(self).instruments == old(self).instruments,
            index < old(self).instruments@.len() ==> final(self).selected_row == Some(index),
            index >= old(self).instruments@.len() ==> final(self).selected_row == old(
                self,
            ).selected_row,
    {
        if index < self.instruments.len() {
            self.selected_row = Some(index);
        }
    }

    /// The record the selection points at, if any.
    pub fn selected_instrument(&self) -> (r: Option<&Instrument>)
        requires
            self.wf(),
        ensures
            match self.selected_row {
                Some(i) => r matches Some(x) && *x == self.instruments@[i as int],
                None => r is None,
            },
    {
        match self.selected_row {
            Some(i) => Some(&self.instruments[i]),
            None => None,
        }
    }
}

} // verus!
