//! The contract events a test environment has recorded.
//!
//! Each [`Event`] is published by a contract (its address), carries a list of
//! topic values and one data value. Values are compared with their type:
//! `100i128` and `100i32` are different values, and so are the symbol
//! `transfer` and the string `"transfer"`.

use vstd::prelude::*;
use crate::address::{bytes_equal, Address, Symbol};

verus! {

/// A value carried by an event (a topic or the data), tagged with its type.
/// Lists and maps hold further values; a map is held as its entries, in the
/// host's key order.
#[derive(Debug)]
pub enum Val {
    Void,
    Bool(bool),
    /// A host error, by its error type and code (for a contract error, the
    /// contract's own code).
    Error { kind: u32, code: u32 },
    U32(u32),
    I32(i32),
    U64(u64),
    I64(i64),
    Timepoint(u64),
    Duration(u64),
    U128(u128),
    I128(i128),
    /// A 256-bit unsigned integer by its four 64-bit words, most significant
    /// first.
    U256 { hi_hi: u64, hi_lo: u64, lo_hi: u64, lo_lo: u64 },
    /// A 256-bit signed integer by its four 64-bit words, most significant
    /// (and signed) first.
    I256 { hi_hi: i64, hi_lo: u64, lo_hi: u64, lo_lo: u64 },
    Bytes(Vec<u8>),
    /// A string, by its bytes.
    Str(Vec<u8>),
    Symbol(Symbol),
    Address(Address),
    List(Vec<Val>),
    Entries(Vec<(Val, Val)>),
}

/// An event value as a mathematical value.
pub enum ValView {
    Void,
    Bool(bool),
    Error { kind: u32, code: u32 },
    U32(u32),
    I32(i32),
    U64(u64),
    I64(i64),
    Timepoint(u64),
    Duration(u64),
    U128(u128),
    I128(i128),
    U256 { hi_hi: u64, hi_lo: u64, lo_hi: u64, lo_lo: u64 },
    I256 { hi_hi: i64, hi_lo: u64, lo_hi: u64, lo_lo: u64 },
    Bytes(Seq<u8>),
    Str(Seq<u8>),
    Symbol(Seq<u8>),
    Address(Seq<u8>),
    List(Seq<ValView>),
    Entries(Seq<(ValView, ValView)>),
}

/// The mathematical value of `v`.
pub open spec fn val_view(v: Val) -> ValView
    decreases v,
{
    match v {
        Val::Void => ValView::Void,
        Val::Bool(b) => ValView::Bool(b),
        Val::Error { kind, code } => ValView::Error { kind, code },
        Val::U32(x) => ValView::U32(x),
        Val::I32(x) => ValView::I32(x),
        Val::U64(x) => ValView::U64(x),
        Val::I64(x) => ValView::I64(x),
        Val::Timepoint(x) => ValView::Timepoint(x),
        Val::Duration(x) => ValView::Duration(x),
        Val::U128(x) => ValView::U128(x),
        Val::I128(x) => ValView::I128(x),
        Val::U256 { hi_hi, hi_lo, lo_hi, lo_lo } => ValView::U256 { hi_hi, hi_lo, lo_hi, lo_lo },
        Val::I256 { hi_hi, hi_lo, lo_hi, lo_lo } => ValView::I256 { hi_hi, hi_lo, lo_hi, lo_lo },
        Val::Bytes(b) => ValView::Bytes(b@),
        Val::Str(b) => ValView::Str(b@),
        Val::Symbol(s) => ValView::Symbol(s@),
        Val::Address(a) => ValView::Address(a@),
        Val::List(items) => ValView::List(vals_view(items@)),
        Val::Entries(entries) => ValView::Entries(entries_view(entries@)),
    }
}

/// The mathematical values of a list of values, in order.
pub open spec fn vals_view(items: Seq<Val>) -> Seq<ValView>
    decreases items,
{
    if items.len() == 0 {
        Seq::empty()
    } else {
        vals_view(items.drop_last()).push(val_view(items.last()))
    }
}

/// The mathematical values of a list of map entries, in order.
pub open spec fn entries_view(entries: Seq<(Val, Val)>) -> Seq<(ValView, ValView)>
    decreases entries,
{
    if entries.len() == 0 {
        Seq::empty()
    } else {
        entries_view(entries.drop_last()).push(
            (val_view(entries.last().0), val_view(entries.last().1)),
        )
    }
}

impl View for Val {
    type V = ValView;

    open spec fn view(&self) -> ValView {
        val_view(*self)
    }
}

/// `vals_view` keeps the length and maps each value to its view.
pub proof fn lemma_vals_view(items: Seq<Val>)
    ensures
        vals_view(items).len() == items.len(),
        forall|i: int| 0 <= i < items.len() ==> #[trigger] vals_view(items)[i] == val_view(items[i]),
    decreases items.len(),
{
    if items.len() > 0 {
        lemma_vals_view(items.drop_last());
    }
}

/// `entries_view` keeps the length and maps each entry to its views.
pub proof fn lemma_entries_view(entries: Seq<(Val, Val)>)
    ensures
        entries_view(entries).len() == entries.len(),
        forall|i: int|
            0 <= i < entries.len() ==> #[trigger] entries_view(entries)[i] == (
                val_view(entries[i].0),
                val_view(entries[i].1),
            ),
    decreases entries.len(),
{
    if entries.len() > 0 {
        lemma_entries_view(entries.drop_last());
    }
}

/// Whether two values are the same value of the same type.
pub fn same_val(a: &Val, b: &Val) -> (r: bool)
    ensures
        r == (a@ == b@),
    decreases a,
{
    match a {
        Val::Void => matches!(b, Val::Void),
        Val::Bool(x) => match b {
            Val::Bool(y) => *x == *y,
            _ => false,
        },
        Val::Error { kind, code } => match b {
            Val::Error { kind: k, code: c } => *kind == *k && *code == *c,
            _ => false,
        },
        Val::U32(x) => match b {
            Val::U32(y) => *x == *y,
            _ => false,
        },
        Val::I32(x) => match b {
            Val::I32(y) => *x == *y,
            _ => false,
        },
        Val::U64(x) => match b {
            Val::U64(y) => *x == *y,
            _ => false,
        },
        Val::I64(x) => match b {
            Val::I64(y) => *x == *y,
            _ => false,
        },
        Val::Timepoint(x) => match b {
            Val::Timepoint(y) => *x == *y,
            _ => false,
        },
        Val::Duration(x) => match b {
            Val::Duration(y) => *x == *y,
            _ => false,
        },
        Val::U128(x) => match b {
            Val::U128(y) => *x == *y,
            _ => false,
        },
        Val::I128(x) => match b {
            Val::I128(y) => *x == *y,
            _ => false,
        },
        Val::U256 { hi_hi, hi_lo, lo_hi, lo_lo } => match b {
            Val::U256 { hi_hi: h1, hi_lo: h2, lo_hi: l1, lo_lo: l2 } => *hi_hi == *h1 && *hi_lo
                == *h2 && *lo_hi == *l1 && *lo_lo == *l2,
            _ => false,
        },
        Val::I256 { hi_hi, hi_lo, lo_hi, lo_lo } => match b {
            Val::I256 { hi_hi: h1, hi_lo: h2, lo_hi: l1, lo_lo: l2 } => *hi_hi == *h1 && *hi_lo
                == *h2 && *lo_hi == *l1 && *lo_lo == *l2,
            _ => false,
        },
        Val::Bytes(x) => match b {
            Val::Bytes(y) => bytes_equal(x, y),
            _ => false,
        },
        Val::Str(x) => match b {
            Val::Str(y) => bytes_equal(x, y),
            _ => false,
        },
        Val::Symbol(x) => match b {
            Val::Symbol(y) => x.same_as(y),
            _ => false,
        },
        Val::Address(x) => match b {
            Val::Address(y) => x.same_as(y),
            _ => false,
        },
        Val::List(x) => match b {
            Val::List(y) => same_vals(x, y),
            _ => false,
        },
        Val::Entries(x) => match b {
            Val::Entries(y) => same_entries(x, y),
            _ => false,
        },
    }
}

/// Whether two lists hold the same values, in the same order.
pub fn same_vals(a: &Vec<Val>, b: &Vec<Val>) -> (r: bool)
    ensures
        r == (vals_view(a@) == vals_view(b@)),
    decreases a,
{
    proof {
        lemma_vals_view(a@);
        lemma_vals_view(b@);
    }
    if a.len() != b.len() {
        return false;
    }
    let n = a.len();
    let mut i: usize = 0;
    while i < n
        invariant
            n == a.len(),
            n == b.len(),
            i <= n,
            vals_view(a@).len() == n,
            vals_view(b@).len() == n,
            forall|k: int| 0 <= k < n ==> #[trigger] vals_view(a@)[k] == val_view(a@[k]),
            forall|k: int| 0 <= k < n ==> #[trigger] vals_view(b@)[k] == val_view(b@[k]),
            forall|j: int| 0 <= j < i ==> vals_view(a@)[j] == vals_view(b@)[j],
        decreases n - i,
    {
        proof {
            assert(decreases_to!(a => a@[i as int]));
        }
        if !same_val(&a[i], &b[i]) {
            assert(vals_view(a@)[i as int] != vals_view(b@)[i as int]);
            return false;
        }
        assert(vals_view(a@)[i as int] == vals_view(b@)[i as int]);
        i = i + 1;
    }
    assert(vals_view(a@) =~= vals_view(b@));
    true
}

/// Whether two lists of map entries hold the same entries, in the same order.
pub fn same_entries(a: &Vec<(Val, Val)>, b: &Vec<(Val, Val)>) -> (r: bool)
    ensures
        r == (entries_view(a@) == entries_view(b@)),
    decreases a,
{
    proof {
        lemma_entries_view(a@);
        lemma_entries_view(b@);
    }
    if a.len() != b.len() {
        return false;
    }
    let n = a.len();
    let mut i: usize = 0;
    while i < n
        invariant
            n == a.len(),
            n == b.len(),
            i <= n,
            entries_view(a@).len() == n,
            entries_view(b@).len() == n,
            forall|k: int|
                0 <= k < n ==> #[trigger] entries_view(a@)[k] == (
                    val_view(a@[k].0),
                    val_view(a@[k].1),
                ),
            forall|k: int|
                0 <= k < n ==> #[trigger] entries_view(b@)[k] == (
                    val_view(b@[k].0),
                    val_view(b@[k].1),
                ),
            forall|j: int| 0 <= j < i ==> entries_view(a@)[j] == entries_view(b@)[j],
        decreases n - i,
    {
        proof {
            assert(decreases_to!(a => a@[i as int].0));
            assert(decreases_to!(a => a@[i as int].1));
        }
        let keys_same = same_val(&a[i].0, &b[i].0);
        let values_same = same_val(&a[i].1, &b[i].1);
        if !(keys_same && values_same) {
            assert(entries_view(a@)[i as int] != entries_view(b@)[i as int]);
            return false;
        }
        assert(entries_view(a@)[i as int] == entries_view(b@)[i as int]);
        i = i + 1;
    }
    assert(entries_view(a@) =~= entries_view(b@));
    true
}

/// A published event as a mathematical value.
pub struct EventView {
    pub contract_id: Seq<u8>,
    pub topics: Seq<ValView>,
    pub data: ValView,
}

/// A published event.
#[derive(Debug)]
pub struct Event {
    contract_id: Address,
    topics: Vec<Val>,
    data: Val,
}

impl View for Event {
    type V = EventView;

    open spec fn view(&self) -> EventView {
        self.event_view()
    }
}

impl Event {
    /// The event as a mathematical value.
    pub closed spec fn event_view(&self) -> EventView {
        EventView { contract_id: self.contract_id@, topics: vals_view(self.topics@), data: self.data@ }
    }

    /// Whether this event was published by `contract_id` with exactly these
    /// topics and this data value.
    pub fn matches(&self, contract_id: &Address, topics: &Vec<Val>, data: &Val) -> (r: bool)
        ensures
            r == (self@ == EventView {
                contract_id: contract_id@,
                topics: vals_view(topics@),
                data: data@,
            }),
    {
        self.contract_id.same_as(contract_id) && same_vals(&self.topics, topics) && same_val(
            &self.data,
            data,
        )
    }
}

/// The events recorded by a test environment, oldest first.
pub struct EventLog {
    events: Vec<Event>,
}

impl View for EventLog {
    type V = Seq<EventView>;

    open spec fn view(&self) -> Seq<EventView> {
        self.log_view()
    }
}

impl EventLog {
    /// The recorded events, oldest first.
    pub closed spec fn log_view(&self) -> Seq<EventView> {
        self.events@.map_values(|e: Event| e@)
    }

    /// An empty history.
    pub fn new() -> (l: EventLog)
        ensures
            l@ == Seq::<EventView>::empty(),
    {
        let l = EventLog { events: Vec::new() };
        assert(l@ =~= Seq::<EventView>::empty());
        l
    }

    /// Record an event published by `contract_id`.
    pub fn publish(&mut self, contract_id: &Address, topics: Vec<Val>, data: Val)
        ensures
            final(self)@ == old(self)@.push(
                EventView { contract_id: contract_id@, topics: vals_view(topics@), data: data@ },
            ),
    {
        let e = Event { contract_id: contract_id.duplicate(), topics, data };
        self.events.push(e);
        assert(self@ =~= old(self)@.push(e@));
    }

    /// The number of recorded events.
    pub fn len(&self) -> (r: usize)
        ensures
            r == self@.len(),
    {
        self.events.len()
    }

    /// Whether some recorded event was published by `contract_id` with these
    /// topics and this data value.
    pub fn contains(&self, contract_id: &Address, topics: &Vec<Val>, data: &Val) -> (r: bool)
        ensures
            r == self@.contains(
                EventView { contract_id: contract_id@, topics: vals_view(topics@), data: data@ },
            ),
    {
        let ghost want = EventView {
            contract_id: contract_id@,
            topics: vals_view(topics@),
            data: data@,
        };
        let n = self.events.len();
        let mut i: usize = 0;
        while i < n
            invariant
                n == self.events.len(),
                want == (EventView {
                    contract_id: contract_id@,
                    topics: vals_view(topics@),
                    data: data@,
                }),
                i <= n,
                forall|j: int| 0 <= j < i ==> self@[j] != want,
            decreases n - i,
        {
            if self.events[i].matches(contract_id, topics, data) {
                assert(self@[i as int] == self.events@[i as int]@);
                assert(self@[i as int] == want);
                return true;
            }
            assert(self@[i as int] == self.events@[i as int]@);
            i = i + 1;
        }
        false
    }
}

/// Law: an event that was just published is found in the history, and each
/// publication adds exactly one event.
pub proof fn law_published_event_is_found(log: Seq<EventView>, e: EventView)
    ensures
        log.push(e).contains(e),
        log.push(e).len() == log.len() + 1,
{
    assert(log.push(e)[log.len() as int] == e);
}

} // verus!
