//! Provides [Accept] **HTTP** header.
//!
//! The header's value is a comma-separated list of media ranges, each with
//! optional `;`-separated parameters. A range whose media type does not
//! parse is skipped. The `q=` parameters of a range are collected as text;
//! the caller reads each as a weight, the last one that reads as a number
//! is the range's weight ([Accept::weight]), and the range with the highest
//! weight is the header's media type (the last of them where several share
//! it).

use super::{encode, encoded, is_header_text, InvalidHeader};
use crate::media::{parsed_mime, Type};
use crate::text::{lemma_split_len, lemma_split_without_sep, split, split_text, texts, trim, trim_text};
use vstd::prelude::*;
use vstd::string::*;

verus! {

/// # **Accept** **HTTP** request header.
pub struct Accept(Type);

impl View for Accept {
    type V = Seq<char>;

    closed spec fn view(&self) -> Seq<char> {
        self.0@
    }
}

/// How a media range ranks by its quality.
///
/// `Rank` orders qualities as the numbers they stand for; `Unordered` is a
/// quality that is neither above nor below any other (one that reads as
/// not-a-number).
#[derive(Debug, Clone, Copy)]
pub enum Weight {
    Rank(u32),
    Unordered,
}

/// `a` ranks strictly above `b`.
pub open spec fn outranks(a: Weight, b: Weight) -> bool {
    match (a, b) {
        (Weight::Rank(x), Weight::Rank(y)) => x > y,
        _ => false,
    }
}

/// Ordered weights compare as the numbers they hold: one outranks another
/// exactly when its number is the greater. An unordered weight outranks
/// none and is outranked by none.
pub proof fn lemma_outranks_numbers(x: u32, y: u32, w: Weight)
    ensures
        outranks(Weight::Rank(x), Weight::Rank(y)) <==> x > y,
        !outranks(Weight::Unordered, w),
        !outranks(w, Weight::Unordered),
{
}

impl Weight {
    /// Whether `self` ranks strictly above `other`: for two ordered weights,
    /// whether the number of `self` is the greater; never where either is
    /// unordered.
    pub fn outranks(&self, other: &Weight) -> (r: bool)
        ensures
            r == outranks(*self, *other),
            *self matches Weight::Rank(x) ==> (*other matches Weight::Rank(y) ==> (r <==> x > y)),
            *self is Unordered || *other is Unordered ==> !r,
    {
        match (self, other) {
            (Weight::Rank(x), Weight::Rank(y)) => *x > *y,
            _ => false,
        }
    }
}

/// The weight of a media range from what its `q=` values read as, in
/// order (`None` for one that is no number): the last that reads as a
/// number decides, `default` where none does.
pub open spec fn last_weight(read: Seq<Option<Weight>>, default: Weight) -> Weight
    decreases read.len(),
{
    if read.len() == 0 {
        default
    } else {
        match read.last() {
            Some(w) => w,
            None => last_weight(read.drop_last(), default),
        }
    }
}

/// The last weight read decides: where `read` holds a number at `k` and
/// none after it, the weight is that number, whatever comes before it;
/// where it holds no number at all, the weight is `default`.
pub proof fn lemma_last_weight(read: Seq<Option<Weight>>, default: Weight, k: int)
    ensures
        0 <= k < read.len() && read[k] is Some && (forall|j: int|
            k < j < read.len() ==> #[trigger] read[j] is None) ==> last_weight(read, default)
            == read[k]->0,
        (forall|j: int| 0 <= j < read.len() ==> #[trigger] read[j] is None) ==> last_weight(
            read,
            default,
        ) == default,
    decreases read.len(),
{
    if read.len() > 0 {
        let n = read.len();
        let rest = read.drop_last();
        assert(read.last() == read[n - 1]);
        lemma_last_weight(rest, default, k);
        if read[n - 1] is None {
            if 0 <= k < n && read[k] is Some && (forall|j: int| k < j < n ==> #[trigger] read[j] is None) {
                assert(k < n - 1);
                assert(rest[k] == read[k]);
                assert forall|j: int| k < j < rest.len() implies #[trigger] rest[j] is None by {
                    assert(rest[j] == read[j]);
                }
            }
            if forall|j: int| 0 <= j < n ==> #[trigger] read[j] is None {
                assert forall|j: int| 0 <= j < rest.len() implies #[trigger] rest[j] is None by {
                    assert(rest[j] == read[j]);
                }
            }
        } else {
            if 0 <= k < n && read[k] is Some && (forall|j: int| k < j < n ==> #[trigger] read[j] is None) {
                assert(k == n - 1);
            }
        }
    }
}

/// One media range of the header: its media type and the texts of its
/// `q=` parameters, in order.
pub struct Item {
    pub media: Type,
    pub qualities: Vec<String>,
}

/// The texts of a list of strings.
pub open spec fn strings(v: Seq<String>) -> Seq<Seq<char>> {
    v.map_values(|s: String| s@)
}

impl View for Item {
    type V = (Seq<char>, Seq<Seq<char>>);

    open spec fn view(&self) -> (Seq<char>, Seq<Seq<char>>) {
        (self.media@, strings(self.qualities@))
    }
}

/// The value of a `q=` parameter: the parameter trimmed, without its
/// `q=` prefix.
pub open spec fn quality_text(param: Seq<char>) -> Option<Seq<char>> {
    let t = trim(param);
    if t.len() >= 2 && t[0] == 'q' && t[1] == '=' {
        Some(t.skip(2))
    } else {
        None
    }
}

/// The values of the `q=` parameters among `params`, in order.
pub open spec fn quality_texts(params: Seq<Seq<char>>) -> Seq<Seq<char>>
    decreases params.len(),
{
    if params.len() == 0 {
        Seq::empty()
    } else {
        let rest = quality_texts(params.drop_last());
        match quality_text(params.last()) {
            Some(v) => rest.push(v),
            None => rest,
        }
    }
}

/// A media range: its first `;`-piece, trimmed, must parse as a media type;
/// the other pieces are its parameters.
pub open spec fn item_of(s: Seq<char>) -> Option<(Seq<char>, Seq<Seq<char>>)> {
    let parts = split(s, ';');
    match parsed_mime(trim(parts[0])) {
        Some(m) => Some((m, quality_texts(parts.skip(1)))),
        None => None,
    }
}

/// The media ranges among `pieces`, in order, without those that do not
/// parse.
pub open spec fn items_of(pieces: Seq<Seq<char>>) -> Seq<(Seq<char>, Seq<Seq<char>>)>
    decreases pieces.len(),
{
    if pieces.len() == 0 {
        Seq::empty()
    } else {
        let rest = items_of(pieces.drop_last());
        match item_of(pieces.last()) {
            Some(i) => rest.push(i),
            None => rest,
        }
    }
}

/// The media ranges of a header value.
pub open spec fn accept_items(value: Seq<char>) -> Seq<(Seq<char>, Seq<Seq<char>>)> {
    items_of(split(value, ','))
}

/// The views of a list of media ranges.
pub open spec fn item_views(v: Seq<Item>) -> Seq<(Seq<char>, Seq<Seq<char>>)> {
    v.map_values(|i: Item| i@)
}

/// The views of a list of weighted media types.
pub open spec fn ranked_view(v: Seq<(Type, Weight)>) -> Seq<(Seq<char>, Weight)> {
    v.map_values(|p: (Type, Weight)| (p.0@, p.1))
}

/// The chosen media type of a weighted list: going from first to last, the
/// choice so far is kept only where it ranks strictly above the next one.
pub open spec fn pick(ranked: Seq<(Seq<char>, Weight)>) -> Option<(Seq<char>, Weight)>
    decreases ranked.len(),
{
    if ranked.len() == 0 {
        None
    } else {
        let last = ranked.last();
        match pick(ranked.drop_last()) {
            None => Some(last),
            Some(acc) => if outranks(acc.1, last.1) {
                Some(acc)
            } else {
                Some(last)
            },
        }
    }
}

/// The chosen media type is one of the list, whatever the weights; a list
/// that is not empty always yields one.
pub proof fn lemma_pick_is_member(ranked: Seq<(Seq<char>, Weight)>)
    ensures
        ranked.len() > 0 <==> pick(ranked) is Some,
        pick(ranked) matches Some(b) ==> ranked.contains(b),
    decreases ranked.len(),
{
    if ranked.len() > 0 {
        let rest = ranked.drop_last();
        lemma_pick_is_member(rest);
        assert(ranked[ranked.len() - 1] == ranked.last());
        if pick(rest) is Some {
            let b = pick(rest)->0;
            let k = choose|k: int| 0 <= k < rest.len() && rest[k] == b;
            assert(ranked[k] == rest[k]);
        }
    }
}

/// Every weight of the list is ordered.
pub open spec fn all_ranked(ranked: Seq<(Seq<char>, Weight)>) -> bool {
    forall|i: int| 0 <= i < ranked.len() ==> (#[trigger] ranked[i]).1 is Rank
}

/// Where every weight is ordered, the chosen media type has the highest
/// weight of the list, and it is the last of those that have that weight.
pub proof fn lemma_pick_is_last_maximum(ranked: Seq<(Seq<char>, Weight)>)
    requires
        all_ranked(ranked),
        ranked.len() > 0,
    ensures
        pick(ranked) is Some,
        forall|j: int| 0 <= j < ranked.len() ==> !outranks(#[trigger] ranked[j].1, (pick(ranked)->0).1),
        exists|k: int|
            #![trigger ranked[k]]
            0 <= k < ranked.len() && ranked[k] == pick(ranked)->0 && forall|j: int|
                k < j < ranked.len() ==> outranks((pick(ranked)->0).1, #[trigger] ranked[j].1),
    decreases ranked.len(),
{
    let n = ranked.len();
    let rest = ranked.drop_last();
    let last = ranked.last();
    assert(ranked[n - 1] == last);
    if n == 1 {
        assert(rest.len() == 0);
        assert(pick(ranked) == Some(last));
    } else {
        assert(all_ranked(rest)) by {
            assert forall|i: int| 0 <= i < rest.len() implies (#[trigger] rest[i]).1 is Rank by {
                assert(rest[i] == ranked[i]);
            }
        }
        lemma_pick_is_last_maximum(rest);
        let b = pick(rest)->0;
        let k0 = choose|k: int|
            #![trigger rest[k]]
            0 <= k < rest.len() && rest[k] == b && forall|j: int|
                k < j < rest.len() ==> outranks(b.1, #[trigger] rest[j].1);
        assert(ranked[n - 1].1 is Rank);
        assert(rest[k0] == ranked[k0]);
        assert(b.1 is Rank);
        if outranks(b.1, last.1) {
            assert(pick(ranked) == Some(b));
            assert forall|j: int| 0 <= j < n implies !outranks(#[trigger] ranked[j].1, b.1) by {
                if j < n - 1 {
                    assert(rest[j] == ranked[j]);
                }
            }
            assert forall|j: int| k0 < j < n implies outranks(b.1, #[trigger] ranked[j].1) by {
                if j < n - 1 {
                    assert(rest[j] == ranked[j]);
                }
            }
        } else {
            assert(pick(ranked) == Some(last));
            assert forall|j: int| 0 <= j < n implies !outranks(#[trigger] ranked[j].1, last.1) by {
                if j < n - 1 {
                    assert(rest[j] == ranked[j]);
                    assert(!outranks(rest[j].1, b.1));
                    assert(ranked[j].1 is Rank);
                }
            }
        }
    }
}

/// The entry at `k` holds a number greater than that of every other entry,
/// all of which hold numbers.
pub open spec fn strictly_highest(ranked: Seq<(Seq<char>, Weight)>, k: int) -> bool {
    &&& 0 <= k < ranked.len()
    &&& ranked[k].1 matches Weight::Rank(top)
    &&& forall|j: int|
        0 <= j < ranked.len() && j != k ==> (#[trigger] ranked[j].1 matches Weight::Rank(x) && x
            < top)
}

/// Where one entry holds a number greater than that of every other, that
/// entry is the one chosen.
pub proof fn lemma_pick_strictly_highest(ranked: Seq<(Seq<char>, Weight)>, k: int)
    requires
        strictly_highest(ranked, k),
    ensures
        pick(ranked) == Some(ranked[k]),
{
    assert(all_ranked(ranked)) by {
        assert forall|i: int| 0 <= i < ranked.len() implies (#[trigger] ranked[i]).1 is Rank by {
            if i != k {
                assert(ranked[i].1 is Rank);
            }
        }
    }
    lemma_pick_is_last_maximum(ranked);
    let p = pick(ranked)->0;
    let k0 = choose|k0: int|
        #![trigger ranked[k0]]
        0 <= k0 < ranked.len() && ranked[k0] == p && forall|j: int|
            k0 < j < ranked.len() ==> outranks(p.1, #[trigger] ranked[j].1);
    assert(!outranks(ranked[k].1, p.1));
    if k0 != k {
        assert(ranked[k0].1 is Rank);
        assert(outranks(ranked[k].1, ranked[k0].1));
    }
}

/// The value of the `q=` parameter `param`, if it is one.
fn read_quality(param: &str) -> (r: Option<String>)
    ensures
        r matches Some(v) ==> quality_text(param@) == Some(v@),
        r is None <==> quality_text(param@) is None,
{
    let t = trim_text(param);
    let n = t.unicode_len();
    if n >= 2 && t.get_char(0) == 'q' && t.get_char(1) == '=' {
        Some(t.substring_char(2, n).to_owned())
    } else {
        None
    }
}

impl Accept {
    pub fn new(media: Type) -> (r: Self)
        ensures
            r@ == media@,
    {
        Accept(media)
    }

    /// The header's media type.
    pub fn media(&self) -> (r: &Type)
        ensures
            r@ == self@,
    {
        &self.0
    }

    pub fn into_media(self) -> (r: Type)
        ensures
            r@ == self@,
    {
        self.0
    }

    /// Attempts to parse an *arbitrary* `s` into the **media-type** with the
    /// texts of its `q=` parameters.
    pub fn parse_item(s: &str) -> (r: Option<Item>)
        ensures
            r matches Some(i) ==> item_of(s@) == Some(i@),
            r is None <==> item_of(s@) is None,
    {
        let parts = split_text(s, ';');
        proof {
            lemma_split_len(s@, ';');
        }
        let media = match Type::from_str(trim_text(parts[0])) {
            Ok(t) => t,
            Err(_) => return None,
        };
        let ghost all = texts(parts@);
        let mut qualities: Vec<String> = Vec::new();
        let mut k: usize = 1;
        assert(all.subrange(1, 1) =~= Seq::<Seq<char>>::empty());
        while k < parts.len()
            invariant
                1 <= k <= parts.len(),
                all == texts(parts@),
                strings(qualities@) == quality_texts(all.subrange(1, k as int)),
            decreases parts.len() - k,
        {
            let q = read_quality(parts[k]);
            assert(all.subrange(1, k + 1).drop_last() =~= all.subrange(1, k as int));
            assert(all.subrange(1, k + 1).last() == parts@[k as int]@);
            let ghost before = strings(qualities@);
            match q {
                Some(v) => {
                    qualities.push(v);
                    assert(strings(qualities@) =~= before.push(v@));
                },
                None => {},
            }
            k = k + 1;
        }
        assert(all.subrange(1, parts.len() as int) =~= all.skip(1));
        Some(Item { media, qualities })
    }

    /// The media ranges of the header value `value`, in order, without
    /// those whose media type does not parse.
    pub fn items(value: &str) -> (r: Vec<Item>)
        ensures
            item_views(r@) == accept_items(value@),
    {
        let pieces = split_text(value, ',');
        let ghost all = texts(pieces@);
        let mut items: Vec<Item> = Vec::new();
        let mut k: usize = 0;
        assert(all.take(0) =~= Seq::<Seq<char>>::empty());
        while k < pieces.len()
            invariant
                k <= pieces.len(),
                all == texts(pieces@),
                item_views(items@) == items_of(all.take(k as int)),
            decreases pieces.len() - k,
        {
            let item = Self::parse_item(pieces[k]);
            assert(all.take(k + 1).drop_last() =~= all.take(k as int));
            assert(all.take(k + 1).last() == pieces@[k as int]@);
            let ghost before = item_views(items@);
            match item {
                Some(i) => {
                    let ghost v = i@;
                    items.push(i);
                    assert(item_views(items@) =~= before.push(v));
                },
                None => {},
            }
            k = k + 1;
        }
        assert(all.take(pieces.len() as int) =~= all);
        items
    }

    /// The header from its media ranges, each with the weight its
    /// qualities give it: the chosen one of [pick], or an error where there
    /// is none.
    pub fn best(ranked: &Vec<(Type, Weight)>) -> (r: Result<Accept, InvalidHeader>)
        ensures
            r matches Ok(a) ==> pick(ranked_view(ranked@)) matches Some(b) && b.0 == a@,
            r is Err <==> ranked@.len() == 0,
            r is Ok ==> ranked_view(ranked@).contains(pick(ranked_view(ranked@))->0),
            r is Ok && all_ranked(ranked_view(ranked@)) ==> forall|j: int|
                0 <= j < ranked@.len() ==> !outranks(
                    #[trigger] ranked_view(ranked@)[j].1,
                    (pick(ranked_view(ranked@))->0).1,
                ),
            r is Ok && all_ranked(ranked_view(ranked@)) ==> exists|k: int|
                #![trigger ranked_view(ranked@)[k]]
                0 <= k < ranked@.len() && ranked_view(ranked@)[k] == pick(ranked_view(ranked@))->0
                    && forall|j: int|
                    k < j < ranked@.len() ==> outranks(
                        (pick(ranked_view(ranked@))->0).1,
                        #[trigger] ranked_view(ranked@)[j].1,
                    ),
            forall|k: int|
                #[trigger] strictly_highest(ranked_view(ranked@), k) ==> (r matches Ok(a) && a@
                    == ranked@[k].0@),
    {
        if ranked.len() == 0 {
            return Err(InvalidHeader);
        }
        let ghost all = ranked_view(ranked@);
        let mut bi: usize = 0;
        let mut i: usize = 1;
        assert(all.take(1).drop_last() =~= Seq::<(Seq<char>, Weight)>::empty());
        assert(all.take(1).last() == all[0]);
        assert(pick(Seq::<(Seq<char>, Weight)>::empty()) is None);
        assert(pick(all.take(1)) == Some(all[0]));
        while i < ranked.len()
            invariant
                1 <= i <= ranked.len(),
                bi < i,
                all == ranked_view(ranked@),
                pick(all.take(i as int)) == Some(all[bi as int]),
            decreases ranked.len() - i,
        {
            assert(all.take(i + 1).drop_last() =~= all.take(i as int));
            assert(all.take(i + 1).last() == all[i as int]);
            if !ranked[bi].1.outranks(&ranked[i].1) {
                bi = i;
            }
            i = i + 1;
        }
        assert(all.take(ranked.len() as int) =~= all);
        proof {
            lemma_pick_is_member(all);
            if all_ranked(all) {
                lemma_pick_is_last_maximum(all);
            }
            assert forall|k: int| #[trigger] strictly_highest(all, k) implies pick(all) == Some(
                all[k],
            ) by {
                lemma_pick_strictly_highest(all, k);
            }
        }
        Ok(Accept(ranked[bi].0.clone()))
    }

    /// The weight of a media range from what its `q=` values read as: see
    /// [last_weight].
    pub fn weight(read: &Vec<Option<Weight>>, default: Weight) -> (r: Weight)
        ensures
            r == last_weight(read@, default),
            forall|k: int|
                #![trigger read@[k]]
                0 <= k < read@.len() && read@[k] is Some && (forall|j: int|
                    k < j < read@.len() ==> #[trigger] read@[j] is None) ==> r == read@[k]->0,
            (forall|j: int| 0 <= j < read@.len() ==> #[trigger] read@[j] is None) ==> r == default,
    {
        proof {
            assert forall|k: int|
                #![trigger read@[k]]
                0 <= k < read@.len() && read@[k] is Some && (forall|j: int|
                    k < j < read@.len() ==> #[trigger] read@[j] is None) implies last_weight(
                read@,
                default,
            ) == read@[k]->0 by {
                lemma_last_weight(read@, default, k);
            }
            lemma_last_weight(read@, default, 0);
        }
        let mut k: usize = read.len();
        assert(read@.take(k as int) =~= read@);
        while k > 0
            invariant
                k <= read.len(),
                last_weight(read@, default) == last_weight(read@.take(k as int), default),
                forall|i: int|
                    #![trigger read@[i]]
                    0 <= i < read@.len() && read@[i] is Some && (forall|j: int|
                        i < j < read@.len() ==> #[trigger] read@[j] is None) ==> last_weight(
                        read@,
                        default,
                    ) == read@[i]->0,
            decreases k,
        {
            assert(read@.take(k as int).drop_last() =~= read@.take(k - 1));
            assert(read@.take(k as int).last() == read@[k - 1]);
            match read[k - 1] {
                Some(w) => {
                    return w;
                },
                None => {},
            }
            k = k - 1;
        }
        assert(read@.take(0) =~= Seq::<Option<Weight>>::empty());
        default
    }

    /// The header value written for this header. Where that is the media
    /// type's text and the text holds no `,`, no `;` and no white space at
    /// its ends, reading it back gives this media type as the one range,
    /// without qualities, so [Accept::best] chooses it again.
    pub fn encode(&self) -> (r: String)
        ensures
            r@ == encoded(self@),
            is_header_text(self@) && !self@.contains(',') && !self@.contains(';') && trim(
                self@,
            ) == self@ ==> accept_items(r@) == seq![(self@, Seq::<Seq<char>>::empty())],
    {
        let r = encode(&self.0);
        proof {
            let t = self@;
            if is_header_text(t) && !t.contains(',') && !t.contains(';') && trim(t) == t {
                lemma_split_without_sep(t, ',');
                lemma_split_without_sep(t, ';');
                let pieces = split(t, ',');
                assert(pieces.drop_last() =~= Seq::<Seq<char>>::empty());
                assert(items_of(pieces.drop_last()) =~= Seq::<(Seq<char>, Seq<Seq<char>>)>::empty());
                assert(split(t, ';').skip(1) =~= Seq::<Seq<char>>::empty());
                assert(quality_texts(Seq::<Seq<char>>::empty()) =~= Seq::<Seq<char>>::empty());
                assert(item_of(t) == Some((t, Seq::<Seq<char>>::empty())));
                assert(accept_items(r@) =~= seq![(t, Seq::<Seq<char>>::empty())]);
            }
        }
        r
    }
}

} // verus!
