use vstd::prelude::*;
use crate::county::{County, CountyView};
use crate::error::Error;
use crate::geojson::GeoJson;
use crate::point::{Point, Record};

verus! {

/// An ordered list of counties. Where the polygons of two counties overlap,
/// the county listed first answers.
#[derive(Debug)]
pub struct Counties {
    list: Vec<County>,
}

impl View for Counties {
    type V = Seq<CountyView>;

    closed spec fn view(&self) -> Seq<CountyView> {
        Seq::new(self.list@.len(), |i: int| self.list@[i]@)
    }
}

/// Whether county `i` contains `p` and no county listed before it does.
pub open spec fn is_first_match(index: Seq<CountyView>, p: Point, i: int) -> bool {
    &&& 0 <= i < index.len()
    &&& index[i].covers(p)
    &&& forall|j: int| 0 <= j < i ==> !(#[trigger] index[j]).covers(p)
}

/// The answer of the list for `p`: the name of the first county that
/// contains `p`, if any does.
pub open spec fn resolve(index: Seq<CountyView>, p: Point) -> Option<Seq<char>> {
    if exists|i: int| is_first_match(index, p, i) {
        Some(index[choose|i: int| is_first_match(index, p, i)].name)
    } else {
        None
    }
}

/// The answer of the list for a record: the record's `testid` beside the
/// answer for the record's position.
pub open spec fn resolve_record(index: Seq<CountyView>, r: Record) -> Option<(i64, Seq<char>)> {
    match resolve(index, r.position()) {
        Some(name) => Some((r.testid, name)),
        None => None,
    }
}

/// The first county that contains `p` answers: its name is the answer of
/// the list, whatever counties follow it.
pub proof fn lemma_first_match_wins(index: Seq<CountyView>, p: Point, i: int)
    requires
        is_first_match(index, p, i),
    ensures
        resolve(index, p) == Some(index[i].name),
{
    let k = choose|k: int| is_first_match(index, p, k);
    assert(is_first_match(index, p, k));
    if k < i {
        assert(!index[k].covers(p));
    }
    if i < k {
        assert(!index[i].covers(p));
    }
}

/// Where no county contains `p`, the list has no answer for it.
pub proof fn lemma_no_cover_no_match(index: Seq<CountyView>, p: Point)
    requires
        forall|i: int| 0 <= i < index.len() ==> !(#[trigger] index[i]).covers(p),
    ensures
        resolve(index, p) is None,
{
}

/// Of two counties that both contain `p`, the one listed first answers,
/// and never the second under another name.
pub proof fn lemma_first_listed_wins(a: CountyView, b: CountyView, p: Point)
    requires
        a.covers(p),
        b.covers(p),
    ensures
        resolve(seq![a, b], p) == Some(a.name),
        a.name != b.name ==> resolve(seq![a, b], p) != Some(b.name),
{
    lemma_first_match_wins(seq![a, b], p, 0);
}

/// The list has an answer for `p` exactly where one of its counties
/// contains `p`.
pub proof fn lemma_match_is_a_cover(index: Seq<CountyView>, p: Point)
    ensures
        resolve(index, p) is Some <==> exists|i: int|
            0 <= i < index.len() && (#[trigger] index[i]).covers(p),
{
    if exists|i: int| 0 <= i < index.len() && (#[trigger] index[i]).covers(p) {
        let i = choose|i: int| 0 <= i < index.len() && (#[trigger] index[i]).covers(p);
        lemma_least_cover(index, p, i);
    }
}

/// Below any county that contains `p` there is a first one.
proof fn lemma_least_cover(index: Seq<CountyView>, p: Point, i: int)
    requires
        0 <= i < index.len(),
        index[i].covers(p),
    ensures
        exists|k: int| is_first_match(index, p, k),
    decreases i,
{
    if exists|j: int| 0 <= j < i && (#[trigger] index[j]).covers(p) {
        let j = choose|j: int| 0 <= j < i && (#[trigger] index[j]).covers(p);
        lemma_least_cover(index, p, j);
    } else {
        assert(is_first_match(index, p, i));
    }
}

impl Counties {
    /// Builds the list of the counties of `json`, in the order of its
    /// features. Where a county cannot be built of some feature, no list is
    /// built, and the error is that of the first such feature.
    pub fn new(json: &GeoJson) -> (res: Result<Counties, Error>)
        ensures
            match res {
                Ok(counties) => json.sound() && counties@ == json.counties(),
                Err(e) => exists|i: int|
                    json.is_first_defect(i) && (#[trigger] json.features@[i]).defect() == Some(e),
            },
    {
        let mut counties: Vec<County> = Vec::new();
        let mut i: usize = 0;
        while i < json.features.len()
            invariant
                i <= json.features@.len(),
                counties@.len() == i,
                forall|k: int| 0 <= k < i ==> (#[trigger] json.features@[k]).defect() is None,
                forall|k: int| 0 <= k < i ==> (#[trigger] counties@[k])@ == json.features@[k].county(),
            decreases json.features@.len() - i,
        {
            match County::new(&json.features[i]) {
                Ok(county) => {
                    counties.push(county);
                },
                Err(e) => {
                    assert(json.is_first_defect(i as int));
                    return Err(e);
                },
            }
            i += 1;
        }
        let res = Counties { list: counties };
        assert(res@ =~= json.counties());
        Ok(res)
    }

    /// Looks up the county, if any, for a given point, and returns its name.
    /// The counties are asked in their order and the first that contains
    /// the point answers.
    pub fn lookup(&self, p: &Point) -> (res: Option<String>)
        ensures
            res.deep_view() == resolve(self@, *p),
    {
        let mut i: usize = 0;
        while i < self.list.len()
            invariant
                i <= self.list@.len(),
                forall|j: int| 0 <= j < i ==> !(#[trigger] self@[j]).covers(*p),
            decreases self.list@.len() - i,
        {
            match self.list[i].lookup(p) {
                Some(v) => {
                    proof {
                        lemma_first_match_wins(self@, *p, i as int);
                    }
                    return Some(v);
                },
                None => {},
            }
            i += 1;
        }
        proof {
            lemma_no_cover_no_match(self@, *p);
        }
        None
    }

    /// Looks up the county, if any, for the position of a record, and
    /// returns the record's `testid` and the county's name.
    pub fn lookup_record(&self, r: &Record) -> (res: Option<(i64, String)>)
        ensures
            res.deep_view() == resolve_record(self@, *r),
    {
        let mut i: usize = 0;
        while i < self.list.len()
            invariant
                i <= self.list@.len(),
                forall|j: int| 0 <= j < i ==> !(#[trigger] self@[j]).covers(r.position()),
            decreases self.list@.len() - i,
        {
            match self.list[i].lookup_record(r) {
                Some(v) => {
                    proof {
                        lemma_first_match_wins(self@, r.position(), i as int);
                    }
                    return Some(v);
                },
                None => {},
            }
            i += 1;
        }
        proof {
            lemma_no_cover_no_match(self@, r.position());
        }
        None
    }

    /// Looks up each of the points. The result has one entry for each
    /// point, in the order of the points, and each entry is what `lookup`
    /// answers for that point.
    pub fn lookup_all(&self, p: &Vec<Point>) -> (res: Vec<Option<String>>)
        ensures
            res@.len() == p@.len(),
            forall|i: int|
                0 <= i < p@.len() ==> (#[trigger] res@[i]).deep_view() == resolve(self@, p@[i]),
    {
        let mut res: Vec<Option<String>> = Vec::with_capacity(p.len());
        let mut i: usize = 0;
        while i < p.len()
            invariant
                i <= p@.len(),
                res@.len() == i,
                forall|k: int| 0 <= k < i ==> (#[trigger] res@[k]).deep_view() == resolve(self@, p@[k]),
            decreases p@.len() - i,
        {
            res.push(self.lookup(&p[i]));
            i += 1;
        }
        res
    }

    /// Looks up each of the records. The result has one entry for each
    /// record, in the order of the records, and each entry is what
    /// `lookup_record` answers for that record.
    pub fn lookup_all_records(&self, p: &Vec<Record>) -> (res: Vec<Option<(i64, String)>>)
        ensures
            res@.len() == p@.len(),
            forall|i: int|
                0 <= i < p@.len() ==> (#[trigger] res@[i]).deep_view() == resolve_record(
                    self@,
                    p@[i],
                ),
    {
        let mut res: Vec<Option<(i64, String)>> = Vec::with_capacity(p.len());
        let mut i: usize = 0;
        while i < p.len()
            invariant
                i <= p@.len(),
                res@.len() == i,
                forall|k: int|
                    0 <= k < i ==> (#[trigger] res@[k]).deep_view() == resolve_record(self@, p@[k]),
            decreases p@.len() - i,
        {
            res.push(self.lookup_record(&p[i]));
            i += 1;
        }
        res
    }
}

} // verus!
