//! The record of an exchange, as it is stored and as a client is shown it.

use crate::actions::{BodyData, BodyDataView};
use crate::decimal::Decimal;
use crate::timestamp::Timestamp;
use crate::util::round_two;
use vstd::prelude::*;

verus! {

/// An exchange that took place: what was asked for and what came of it.
/// The amounts are kept as they were computed, with every digit.
#[derive(Clone, Debug, PartialEq)]
pub struct Exchange {
    /// The identifier that the store gave the record.
    pub id: u128,
    pub created_at: Timestamp,
    pub currency_from: String,
    pub currency_to: String,
    pub amount_from: Decimal,
    pub amount_to: Decimal,
}

pub struct ExchangeView {
    pub id: u128,
    pub created_at: Timestamp,
    pub currency_from: Seq<char>,
    pub currency_to: Seq<char>,
    pub amount_from: Decimal,
    pub amount_to: Decimal,
}

impl View for Exchange {
    type V = ExchangeView;

    open spec fn view(&self) -> ExchangeView {
        ExchangeView {
            id: self.id,
            created_at: self.created_at,
            currency_from: self.currency_from@,
            currency_to: self.currency_to@,
            amount_from: self.amount_from,
            amount_to: self.amount_to,
        }
    }
}

impl ExchangeView {
    /// The record as a client is shown it: both amounts rounded to two
    /// fractional digits, everything else as it is.
    pub open spec fn serialized(self) -> ExchangeView {
        ExchangeView {
            amount_from: self.amount_from.rounded_two(),
            amount_to: self.amount_to.rounded_two(),
            ..self
        }
    }
}

impl Exchange {
    /// The record as a client is shown it. The record itself keeps its
    /// digits.
    pub fn serialize(&self) -> (r: Exchange)
        ensures
            r@ == self@.serialized(),
    {
        Exchange {
            id: self.id,
            created_at: self.created_at,
            currency_from: self.currency_from.clone(),
            currency_to: self.currency_to.clone(),
            amount_from: round_two(&self.amount_from),
            amount_to: round_two(&self.amount_to),
        }
    }
}

impl Default for Exchange {
    /// A record of nothing, made now.
    fn default() -> (r: Exchange)
        ensures
            r.id == 0,
            r.currency_from@.len() == 0,
            r.currency_to@.len() == 0,
            r.amount_from == (Decimal { mantissa: 0, scale: 0 }),
            r.amount_to == (Decimal { mantissa: 0, scale: 0 }),
    {
        Exchange {
            id: 0,
            created_at: Timestamp::now(),
            currency_from: String::new(),
            currency_to: String::new(),
            amount_from: Decimal { mantissa: 0, scale: 0 },
            amount_to: Decimal { mantissa: 0, scale: 0 },
        }
    }
}

/// What a client is shown stays the same when it is prepared once more.
pub proof fn lemma_serialized_idempotent(e: ExchangeView)
    ensures
        e.serialized().serialized() == e.serialized(),
{
}

/// The record that a store makes of a request and of the amount that was
/// made of it, under the identifier that it gives it.
pub open spec fn spec_record(id: u128, body: BodyDataView, amount: Decimal) -> ExchangeView {
    ExchangeView {
        id,
        created_at: body.created_at,
        currency_from: body.currency_from,
        currency_to: body.currency_to,
        amount_from: body.amount_from,
        amount_to: amount,
    }
}

/// The records bear the numbers from one on, in the order they came in.
pub open spec fn numbered(records: Seq<ExchangeView>) -> bool {
    forall|i: int| 0 <= i < records.len() ==> (#[trigger] records[i]).id == i + 1
}

/// The record of that identifier.
pub open spec fn spec_get(records: Seq<ExchangeView>, id: u128) -> Option<ExchangeView> {
    if 1 <= id <= records.len() {
        Some(records[id - 1])
    } else {
        None
    }
}

/// A store that keeps its records in memory, in the order they came in.
/// Nothing is ever changed in it or taken out of it.
#[derive(Clone, Debug)]
pub struct MemoryRepo {
    records: Vec<Exchange>,
}

impl View for MemoryRepo {
    type V = Seq<ExchangeView>;

    closed spec fn view(&self) -> Seq<ExchangeView> {
        self.records@.map_values(|e: Exchange| e@)
    }
}

impl MemoryRepo {
    /// What every store that was made by `new` and filled by `add_exchange`
    /// is like: its records are numbered from one on.
    pub open spec fn wf(&self) -> bool {
        numbered(self@)
    }

    /// A store without records.
    pub fn new() -> (r: MemoryRepo)
        ensures
            r.wf(),
            r@.len() == 0,
    {
        let r = MemoryRepo { records: Vec::new() };
        assert(r@.len() == 0);
        r
    }

    /// Whether the store can be reached: this one always can.
    pub fn ping(&self) -> (r: Result<(), String>)
        ensures
            r is Ok,
    {
        Ok(())
    }

    /// The number of records.
    pub fn len(&self) -> (r: usize)
        ensures
            r == self@.len(),
    {
        self.records.len()
    }

    /// Stores a request with the amount that was made of it, under the next
    /// number, and hands back the record as it now stands in the store. The
    /// amounts are stored digit for digit.
    pub fn add_exchange(&mut self, body: BodyData, amount: Decimal) -> (r: Exchange)
        requires
            old(self).wf(),
        ensures
            final(self).wf(),
            r.id == old(self)@.len() + 1,
            r@ == spec_record(r.id, body@, amount),
            final(self)@ == old(self)@.push(r@),
            spec_get(old(self)@, r.id) is None,
            spec_get(final(self)@, r.id) == Some(r@),
    {
        let id: u128 = self.records.len() as u128 + 1;
        let stored = Exchange {
            id,
            created_at: body.created_at,
            currency_from: body.currency_from.clone(),
            currency_to: body.currency_to.clone(),
            amount_from: body.amount_from,
            amount_to: amount,
        };
        let record = Exchange {
            id,
            created_at: body.created_at,
            currency_from: body.currency_from,
            currency_to: body.currency_to,
            amount_from: body.amount_from,
            amount_to: amount,
        };
        let ghost before = self.records@;
        self.records.push(stored);
        proof {
            assert(self.records@.map_values(|e: Exchange| e@) == before.map_values(
                |e: Exchange| e@,
            ).push(stored@));
        }
        record
    }

    /// The record of that identifier, if the store holds one.
    pub fn get(&self, id: u128) -> (r: Option<&Exchange>)
        ensures
            match r {
                Some(record) => spec_get(self@, id) == Some(record@) && (self.wf() ==> record.id
                    == id),
                None => spec_get(self@, id) is None,
            },
    {
        if 1 <= id && id <= self.records.len() as u128 {
            let record = &self.records[(id - 1) as usize];
            Some(record)
        } else {
            None
        }
    }
}

/// What was stored is read back as it went in: the currencies letter for
/// letter and both amounts digit for digit, under a number that no earlier
/// record bears. The earlier records are read back as before.
pub proof fn lemma_stored_is_read_back(
    before: Seq<ExchangeView>,
    body: BodyDataView,
    amount: Decimal,
)
    requires
        numbered(before),
        before.len() < u128::MAX,
    ensures
        ({
            let record = spec_record((before.len() + 1) as u128, body, amount);
            let after = before.push(record);
            &&& numbered(after)
            &&& spec_get(before, record.id) is None
            &&& spec_get(after, record.id) == Some(record)
            &&& record.currency_from == body.currency_from
            &&& record.currency_to == body.currency_to
            &&& record.amount_from == body.amount_from
            &&& record.amount_to == amount
            &&& forall|id: u128| id != record.id ==> spec_get(after, id) == spec_get(before, id)
        }),
{
}

} // verus!
