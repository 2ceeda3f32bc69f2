use vstd::prelude::*;

use crate::error::{ErrorKind, WinfetchResult};
use crate::record::{lemma_text_mismatch, mismatched, text_spec, Record};
use crate::value::ValueKind;
use crate::text::{joined, push_str, string_from_chars};

verus! {

/// The video controllers of the host, by name, in the order the service
/// listed them.
#[derive(Clone, Debug)]
pub struct GraphicsCard {
    Names: Vec<String>,
}

/// What the video-controller records give: one name per record, in order, or
/// the first error met.
pub open spec fn cards_spec(records: Seq<Record>) -> Result<Seq<Seq<char>>, ErrorKind>
    decreases records.len(),
{
    if records.len() == 0 {
        Ok(Seq::empty())
    } else {
        match cards_spec(records.drop_last()) {
            Err(k) => Err(k),
            Ok(ns) => match text_spec(records.last().fields@, "Name"@) {
                Err(k) => Err(k),
                Ok(n) => Ok(ns.push(n)),
            },
        }
    }
}

/// The characters of each name, in order.
pub open spec fn name_views(ns: Seq<String>) -> Seq<Seq<char>> {
    Seq::new(ns.len(), |i: int| ns[i]@)
}

proof fn lemma_cards_error_persists(records: Seq<Record>, i: int)
    requires
        0 < i <= records.len(),
        cards_spec(records.take(i)) is Err,
    ensures
        cards_spec(records) == cards_spec(records.take(i)),
    decreases records.len() - i,
{
    if i < records.len() {
        assert(records.take(i + 1).drop_last() =~= records.take(i));
        lemma_cards_error_persists(records, i + 1);
    } else {
        assert(records.take(i) =~= records);
    }
}

proof fn lemma_cards_prefix_ok(records: Seq<Record>, k: int)
    requires
        0 <= k <= records.len(),
        forall|j: int| 0 <= j < k ==> #[trigger] text_spec(records[j].fields@, "Name"@) is Ok,
    ensures
        cards_spec(records.take(k)) is Ok,
    decreases k,
{
    if k > 0 {
        lemma_cards_prefix_ok(records, k - 1);
        assert(records.take(k).drop_last() =~= records.take(k - 1));
        assert(text_spec(records[k - 1].fields@, "Name"@) is Ok);
    }
}

/// A video controller whose name is present but not text makes the whole
/// read a type mismatch, never a converted name or a partial list, whenever
/// the names before it were text.
pub proof fn lemma_cards_mismatch(records: Seq<Record>, i: int)
    requires
        0 <= i < records.len(),
        forall|j: int| 0 <= j < i ==> #[trigger] text_spec(records[j].fields@, "Name"@) is Ok,
        mismatched(records[i].fields@, "Name"@, ValueKind::Text),
    ensures
        cards_spec(records) == Err::<Seq<Seq<char>>, ErrorKind>(ErrorKind::TypeMismatch),
{
    lemma_cards_prefix_ok(records, i);
    lemma_text_mismatch(records[i].fields@, "Name"@);
    assert(records.take(i + 1).drop_last() =~= records.take(i));
    assert(records.take(i + 1).last() == records[i]);
    lemma_cards_error_persists(records, i + 1);
}

impl GraphicsCard {
    pub closed spec fn names(&self) -> Seq<Seq<char>> {
        name_views(self.Names@)
    }

    pub fn new(names: Vec<String>) -> (g: GraphicsCard)
        ensures
            g.names() == name_views(names@),
    {
        GraphicsCard { Names: names }
    }

    /// Reads the name of each video-controller record, in order, unsorted.
    pub fn GetGraphicsCards(records: &Vec<Record>) -> (r: WinfetchResult<GraphicsCard>)
        ensures
            match r {
                Ok(g) => cards_spec(records@) == Ok::<Seq<Seq<char>>, ErrorKind>(g.names()),
                Err(e) => cards_spec(records@) == Err::<Seq<Seq<char>>, ErrorKind>(e.0),
            },
    {
        let mut names: Vec<String> = Vec::new();
        let mut i: usize = 0;
        assert(records@.take(0) =~= Seq::<Record>::empty());
        assert(name_views(names@) =~= Seq::<Seq<char>>::empty());
        while i < records.len()
            invariant
                i <= records.len(),
                cards_spec(records@.take(i as int)) == Ok::<Seq<Seq<char>>, ErrorKind>(
                    name_views(names@),
                ),
            decreases records.len() - i,
        {
            assert(records@.take(i + 1).drop_last() =~= records@.take(i as int));
            assert(records@.take(i + 1).last() == records@[i as int]);
            let n = match records[i].GetText("Name") {
                Ok(n) => n,
                Err(e) => {
                    proof {
                        lemma_cards_error_persists(records@, i as int + 1);
                    }
                    return Err(e);
                },
            };
            let ghost before = names@;
            let ghost nv = n@;
            names.push(n);
            assert(name_views(names@) =~= name_views(before).push(nv));
            assert(cards_spec(records@.take(i + 1)) == Ok::<Seq<Seq<char>>, ErrorKind>(
                name_views(names@),
            ));
            i = i + 1;
        }
        assert(records@.take(i as int) =~= records@);
        Ok(GraphicsCard { Names: names })
    }

    /// The names, separated by commas.
    pub fn to_text(&self) -> (r: String)
        ensures
            r@ == joined(self.names(), ", "@),
    {
        let mut out: Vec<char> = Vec::new();
        let mut i: usize = 0;
        while i < self.Names.len()
            invariant
                i <= self.Names@.len(),
                out@ == joined(name_views(self.Names@).take(i as int), ", "@),
            decreases self.Names.len() - i,
        {
            let ghost parts = name_views(self.Names@).take(i + 1);
            assert(parts.drop_last() =~= name_views(self.Names@).take(i as int));
            if i > 0 {
                push_str(&mut out, ", ");
            }
            push_str(&mut out, self.Names[i].as_str());
            i = i + 1;
            assert(out@ =~= joined(name_views(self.Names@).take(i as int), ", "@));
        }
        assert(name_views(self.Names@).take(i as int) =~= name_views(self.Names@));
        string_from_chars(&out)
    }
}

} // verus!
