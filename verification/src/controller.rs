//! The controller: one state machine over the table, the menu and the
//! blocking bridge.
//!
//! The controller is driven by discrete events — a row selection, a
//! key that opens the menu, a menu choice, the outcome of a backend
//! call — and never performs a backend call itself. When a choice is
//! submitted it closes the menu, records the target row, and hands the
//! caller one [`ActionRequest`]; the caller performs the removal over
//! the blocking bridge and reports the outcome back. A successful
//! removal is followed by a fetch of fresh rows, which are loaded with
//! the recorded row as the preferred selection, so the cursor lands on
//! a sensible row after the table shrank by one.
//!
//! While a backend call is in flight the controller accepts no input:
//! selection, menu and dispatch events leave it untouched. This is the
//! busy/idle flag that stands for the single-threaded blocking bridge,
//! under which no event can interleave with an in-flight call. A failed
//! removal or fetch leaves the table exactly as it was: no partial
//! refresh ever hides an error behind a successful-looking redraw.

use vstd::prelude::*;

verus! {

use vstd::string::StringExecFns;
use crate::images::ImageTableRow;
use crate::menu::ActionRequest;
use crate::menu::ImageTableRowAction;
use crate::menu::MenuState;
use crate::table::TableState;
use crate::table::repaired_selection;

/// Why a backend call failed. The controller does not distinguish the
/// kinds for recovery: any failure aborts the pending operation.
#[derive(Copy, Clone, Debug, PartialEq, Eq, Structural)]
pub enum BackendError {
    ConnectionError,
    ProtocolError,
    NotFound,
    InUse,
}

/// The backend call the controller is waiting on, if any. At most one
/// call is ever in flight.
#[derive(Copy, Clone, Debug, PartialEq, Eq, Structural)]
pub enum InFlightCall {
    Idle,
    Remove,
    List,
}

/// The controller over the table, the menu and the bridge.
pub struct Controller {
    table: TableState,
    menu: MenuState,
    in_flight: InFlightCall,
    pending_selection: Option<usize>,
}

impl Controller {
    /// The table this controller owns.
    pub closed spec fn spec_table(&self) -> TableState {
        self.table
    }

    /// The menu state.
    pub closed spec fn spec_menu(&self) -> MenuState {
        self.menu
    }

    /// The backend call in flight, if any.
    pub closed spec fn spec_in_flight(&self) -> InFlightCall {
        self.in_flight
    }

    /// The row index to prefer when the next fetched rows are loaded.
    pub closed spec fn spec_pending_selection(&self) -> Option<usize> {
        self.pending_selection
    }

    /// Whether a backend call is in flight; no input event is accepted
    /// while one is.
    pub open spec fn busy(&self) -> bool {
        self.spec_in_flight() != InFlightCall::Idle
    }

    /// Controller validity: the table's selection is valid, the menu is
    /// open only over an existing row of a non-empty table, and never
    /// while a call is in flight.
    pub open spec fn wf(&self) -> bool {
        &&& self.spec_table().wf()
        &&& match self.spec_menu() {
            MenuState::Open { target_row } => (target_row as nat)
                < self.spec_table().spec_rows().len() && !self.busy(),
            MenuState::Closed => true,
        }
    }

    /// A fresh controller: empty table, menu closed, idle.
    pub fn new() -> (c: Controller)
        ensures
            c.spec_table().spec_rows() =~= Seq::<ImageTableRow>::empty(),
            c.spec_table().spec_selected() is None,
            c.spec_menu() == MenuState::Closed,
            c.spec_in_flight() == InFlightCall::Idle,
            c.wf(),
    {
        Controller {
            table: TableState::new(),
            menu: MenuState::Closed,
            in_flight: InFlightCall::Idle,
            pending_selection: None,
        }
    }

    /// Routes a row-selection event to the table. The event is ignored
    /// — the controller is left untouched — while a backend call is in
    /// flight or while the menu is open, and when no such row exists.
    pub fn select(&mut self, index: usize) -> (applied: bool)
        requires
            old(self).wf(),
        ensures
            final(self).wf(),
            applied <==> !old(self).busy() && old(self).spec_menu() == MenuState::Closed && (
            index as nat) < old(self).spec_table().spec_rows().len(),
            applied ==> final(self).spec_table().spec_rows() == old(
                self,
            ).spec_table().spec_rows() && final(self).spec_table().spec_selected() == Some(index),
            !applied ==> *final(self) == *old(self),
            final(self).spec_menu() == old(self).spec_menu(),
            final(self).spec_in_flight() == old(self).spec_in_flight(),
    {
        if matches!(self.in_flight, InFlightCall::Idle) && matches!(self.menu, MenuState::Closed) {
            match self.table.select(index) {
                Ok(_) => true,
                Err(_) => false,
            }
        } else {
            false
        }
    }

    /// Opens the action menu over the selected row. A silent no-op on
    /// an empty table, while the menu is already open, and while a
    /// backend call is in flight.
    pub fn open_menu(&mut self) -> (opened: bool)
        requires
            old(self).wf(),
        ensures
            final(self).wf(),
            opened <==> !old(self).busy() && old(self).spec_menu() == MenuState::Closed && old(
                self,
            ).spec_table().spec_selected() is Some,
            opened ==> final(self).spec_menu() == (MenuState::Open {
                target_row: old(self).spec_table().spec_selected()->0,
            }),
            !opened ==> *final(self) == *old(self),
            final(self).spec_table() == old(self).spec_table(),
            final(self).spec_in_flight() == old(self).spec_in_flight(),
    {
        if matches!(self.in_flight, InFlightCall::Idle) && matches!(self.menu, MenuState::Closed) {
            match self.table.selected() {
                Some(i) => {
                    self.menu = MenuState::Open { target_row: i };
                    true
                },
                None => false,
            }
        } else {
            false
        }
    }

    /// Dismisses the menu with no side effects. Valid only while the
    /// menu is open; otherwise a no-op.
    pub fn cancel_menu(&mut self) -> (closed: bool)
        requires
            old(self).wf(),
        ensures
            final(self).wf(),
            closed <==> old(self).spec_menu() is Open,
            final(self).spec_menu() == MenuState::Closed,
            final(self).spec_table() == old(self).spec_table(),
            final(self).spec_in_flight() == old(self).spec_in_flight(),
            final(self).spec_pending_selection() == old(self).spec_pending_selection(),
    {
        match self.menu {
            MenuState::Open { .. } => {
                self.menu = MenuState::Closed;
                true
            },
            MenuState::Closed => false,
        }
    }

    /// Submits the operator's menu choice: closes the menu, records the
    /// target row for the selection repair after the refresh, marks the
    /// removal as in flight, and hands back the one request the caller
    /// must run over the bridge. A no-op returning nothing while the
    /// menu is closed.
    pub fn submit(&mut self, choice: ImageTableRowAction) -> (r: Option<ActionRequest>)
        requires
            old(self).wf(),
        ensures
            final(self).wf(),
            r is Some <==> old(self).spec_menu() is Open,
            final(self).spec_menu() == MenuState::Closed,
            old(self).spec_menu() matches MenuState::Open { target_row } ==> {
                &&& r->0.resource_id@ == old(self).spec_table().spec_rows()[
                    target_row as int
                ].id@
                &&& r->0.action_kind == choice
                &&& final(self).spec_in_flight() == InFlightCall::Remove
                &&& final(self).spec_pending_selection() == Some(target_row)
                &&& final(self).spec_table() == old(self).spec_table()
            },
            old(self).spec_menu() is Closed ==> *final(self) == *old(self),
    {
        match self.menu {
            MenuState::Open { target_row } => {
                self.menu = MenuState::Closed;
                self.pending_selection = Some(target_row);
                self.in_flight = InFlightCall::Remove;
                let row = self.table.row(target_row);
                Some(
                    ActionRequest {
                        resource_id: String::from_str(row.id.as_str()),
                        action_kind: choice,
                    },
                )
            },
            MenuState::Closed => None,
        }
    }

    /// Starts a plain refresh of the table, keeping the current
    /// selection as the preferred one. The caller must then fetch the
    /// rows over the bridge and report back. A no-op while a call is in
    /// flight or while the menu is open.
    pub fn begin_refresh(&mut self) -> (started: bool)
        requires
            old(self).wf(),
        ensures
            final(self).wf(),
            started <==> !old(self).busy() && old(self).spec_menu() == MenuState::Closed,
            started ==> {
                &&& final(self).spec_in_flight() == InFlightCall::List
                &&& final(self).spec_pending_selection() == old(self).spec_table().spec_selected()
                &&& final(self).spec_table() == old(self).spec_table()
                &&& final(self).spec_menu() == MenuState::Closed
            },
            !started ==> *final(self) == *old(self),
    {
        if matches!(self.in_flight, InFlightCall::Idle) && matches!(self.menu, MenuState::Closed) {
            self.pending_selection = self.table.selected();
            self.in_flight = InFlightCall::List;
            true
        } else {
            false
        }
    }

    /// Takes the outcome of the in-flight removal. On success the
    /// refresh is owed: the result says to fetch the rows next. On
    /// failure the pending operation is aborted and the table is left
    /// exactly as it was — no refresh hides the error. Ignored unless a
    /// removal is in flight.
    pub fn on_remove_result(&mut self, result: Result<(), BackendError>) -> (refresh: bool)
        requires
            old(self).wf(),
        ensures
            final(self).wf(),
            refresh <==> old(self).spec_in_flight() == InFlightCall::Remove && result is Ok,
            final(self).spec_table() == old(self).spec_table(),
            final(self).spec_menu() == old(self).spec_menu(),
            old(self).spec_in_flight() == InFlightCall::Remove ==> {
                &&& result is Ok ==> final(self).spec_in_flight() == InFlightCall::List
                    && final(self).spec_pending_selection() == old(self).spec_pending_selection()
                &&& result is Err ==> final(self).spec_in_flight() == InFlightCall::Idle
                    && final(self).spec_pending_selection() is None
            },
            old(self).spec_in_flight() != InFlightCall::Remove ==> *final(self) == *old(self),
    {
        match self.in_flight {
            InFlightCall::Remove => {
                match result {
                    Ok(_) => {
                        self.in_flight = InFlightCall::List;
                        true
                    },
                    Err(_) => {
                        self.in_flight = InFlightCall::Idle;
                        self.pending_selection = None;
                        false
                    },
                }
            },
            _ => false,
        }
    }

    /// Takes the outcome of the in-flight fetch. Fresh rows replace the
    /// table atomically, with the selection repaired towards the
    /// recorded preferred row; on failure the previous rows stay
    /// visible, untouched. Either way the controller is idle again.
    /// Ignored unless a fetch is in flight.
    pub fn on_fetch_result(&mut self, result: Result<Vec<ImageTableRow>, BackendError>) -> (loaded:
        bool)
        requires
            old(self).wf(),
        ensures
            final(self).wf(),
            loaded <==> old(self).spec_in_flight() == InFlightCall::List && result is Ok,
            final(self).spec_menu() == old(self).spec_menu(),
            old(self).spec_in_flight() == InFlightCall::List ==> {
                &&& final(self).spec_in_flight() == InFlightCall::Idle
                &&& final(self).spec_pending_selection() is None
                &&& result matches Ok(rows) ==> final(self).spec_table().spec_rows() == rows@
                    && final(self).spec_table().spec_selected() == repaired_selection(
                    rows@.len(),
                    old(self).spec_pending_selection(),
                )
                &&& result is Err ==> final(self).spec_table() == old(self).spec_table()
            },
            old(self).spec_in_flight() != InFlightCall::List ==> *final(self) == *old(self),
    {
        match self.in_flight {
            InFlightCall::List => {
                self.in_flight = InFlightCall::Idle;
                match result {
                    Ok(rows) => {
                        let preferred = self.pending_selection;
                        self.pending_selection = None;
                        self.table.load(rows, preferred);
                        true
                    },
                    Err(_) => {
                        self.pending_selection = None;
                        false
                    },
                }
            },
            _ => false,
        }
    }

    /// While a backend call is in flight the menu is closed. Together
    /// with the event contracts — `select`, `open_menu`, `submit` and
    /// `begin_refresh` each leave a busy controller untouched and emit
    /// nothing — no event interleaves with an in-flight call, and the
    /// bridge is never re-entered before its prior call returned.
    pub proof fn lemma_no_interleaving_while_busy(&self)
        requires
            self.wf(),
            self.busy(),
        ensures
            self.spec_menu() == MenuState::Closed,
    {
    }

    /// The number of rows in the table.
    pub fn row_count(&self) -> (n: usize)
        ensures
            n == self.spec_table().spec_rows().len(),
    {
        self.table.row_count()
    }

    /// The selected index, if any.
    pub fn selected(&self) -> (r: Option<usize>)
        ensures
            r == self.spec_table().spec_selected(),
    {
        self.table.selected()
    }

    /// The selected row, if any.
    pub fn current_row(&self) -> (r: Option<&ImageTableRow>)
        requires
            self.wf(),
        ensures
            match self.spec_table().spec_selected() {
                Some(i) => r is Some && *r->0 == self.spec_table().spec_rows()[i as int],
                None => r is None,
            },
    {
        self.table.current_row()
    }

    /// The row at `index`.
    pub fn row(&self, index: usize) -> (r: &ImageTableRow)
        requires
            index < self.spec_table().spec_rows().len(),
        ensures
            *r == self.spec_table().spec_rows()[index as int],
    {
        self.table.row(index)
    }

    /// The menu state.
    pub fn menu(&self) -> (r: MenuState)
        ensures
            r == self.spec_menu(),
    {
        self.menu
    }

    /// Whether a backend call is in flight.
    pub fn is_busy(&self) -> (r: bool)
        ensures
            r == self.busy(),
    {
        !matches!(self.in_flight, InFlightCall::Idle)
    }
}

} // verus!
