//! Client-side filtering of listed cards.

use vstd::prelude::*;

use crate::types::{Card, Column, Priority, Timestamp};

verus! {

broadcast use vstd::seq_lib::group_seq_properties;

/// Filter options for listing cards. `column` and `include_archived` are
/// answered by the API; the other dimensions are applied by the client.
pub struct ListFilters {
    pub column: Option<Column>,
    pub priorities: Vec<Priority>,
    pub tags: Vec<String>,
    pub overdue: bool,
    pub include_archived: bool,
}

impl Default for ListFilters {
    fn default() -> (r: Self)
        ensures
            r.column is None,
            r.priorities@.len() == 0,
            r.tags@.len() == 0,
            !r.overdue,
            !r.include_archived,
    {
        ListFilters {
            column: None,
            priorities: Vec::new(),
            tags: Vec::new(),
            overdue: false,
            include_archived: false,
        }
    }
}

/// Some tag of `tags` reads `t`.
pub open spec fn has_tag(tags: Seq<String>, t: Seq<char>) -> bool {
    exists|j: int| 0 <= j < tags.len() && tags[j]@ == t
}

/// The client-side dimensions of a filter, as values.
pub struct FilterSpec {
    pub priorities: Seq<Priority>,
    pub tags: Seq<Seq<char>>,
    pub overdue: bool,
}

impl ListFilters {
    pub open spec fn spec(&self) -> FilterSpec {
        FilterSpec {
            priorities: self.priorities@,
            tags: self.tags@.map_values(|t: String| t@),
            overdue: self.overdue,
        }
    }
}

/// The priority dimension: inactive when no priority is asked for.
pub open spec fn priority_passes(f: FilterSpec, c: Card) -> bool {
    f.priorities.len() == 0 || f.priorities.contains(c.priority)
}

/// The tag dimension: inactive when no tag is asked for; otherwise the card
/// shares at least one tag with the request.
pub open spec fn tags_pass(f: FilterSpec, c: Card) -> bool {
    f.tags.len() == 0 || exists|i: int| 0 <= i < f.tags.len() && has_tag(c.tags@, f.tags[i])
}

/// The overdue dimension: when asked for, the card has a due date strictly
/// before `now`.
pub open spec fn overdue_passes(f: FilterSpec, c: Card, now: Timestamp) -> bool {
    !f.overdue || (c.due_date matches Some(d) && d.spec_before(now))
}

/// A card passes a filter when it passes every dimension.
pub open spec fn passes(f: FilterSpec, c: Card, now: Timestamp) -> bool {
    priority_passes(f, c) && tags_pass(f, c) && overdue_passes(f, c, now)
}

pub open spec fn passes_pred(f: FilterSpec, now: Timestamp) -> spec_fn(Card) -> bool {
    |c: Card| passes(f, c, now)
}

/// The cards of `cards` that pass `f` at `now`, in their original order.
pub open spec fn filtered(cards: Seq<Card>, f: FilterSpec, now: Timestamp) -> Seq<Card> {
    cards.filter(passes_pred(f, now))
}

fn contains_priority(ps: &Vec<Priority>, p: Priority) -> (r: bool)
    ensures
        r == ps@.contains(p),
{
    let mut i: usize = 0;
    while i < ps.len()
        invariant
            i <= ps@.len(),
            forall|j: int| 0 <= j < i ==> ps@[j] != p,
        decreases ps@.len() - i,
    {
        if ps[i] == p {
            return true;
        }
        i = i + 1;
    }
    false
}

/// Whether some tag of `tags` reads as `t`.
pub fn contains_tag(tags: &Vec<String>, t: &String) -> (r: bool)
    ensures
        r == has_tag(tags@, t@),
{
    let mut i: usize = 0;
    while i < tags.len()
        invariant
            i <= tags@.len(),
            forall|j: int| 0 <= j < i ==> tags@[j]@ != t@,
        decreases tags@.len() - i,
    {
        if tags[i].eq(t) {
            return true;
        }
        i = i + 1;
    }
    false
}

/// Whether `card` passes every active dimension of `filters` at `now`.
pub fn card_passes(filters: &ListFilters, card: &Card, now: &Timestamp) -> (r: bool)
    ensures
        r == passes(filters.spec(), *card, *now),
{
    let ghost f = filters.spec();
    if filters.priorities.len() > 0 && !contains_priority(&filters.priorities, card.priority) {
        return false;
    }
    if filters.tags.len() > 0 {
        let mut found = false;
        let mut i: usize = 0;
        while i < filters.tags.len()
            invariant
                f == filters.spec(),
                i <= filters.tags@.len(),
                found == exists|k: int| 0 <= k < i && has_tag(card.tags@, f.tags[k]),
            decreases filters.tags@.len() - i,
        {
            let hit = contains_tag(&card.tags, &filters.tags[i]);
            assert(f.tags[i as int] == filters.tags@[i as int]@);
            if hit {
                found = true;
            }
            i = i + 1;
        }
        if !found {
            return false;
        }
    }
    if filters.overdue {
        match &card.due_date {
            Some(due) => {
                if !due.is_before(now) {
                    return false;
                }
            },
            None => {
                return false;
            },
        }
    }
    true
}

/// Keeps the cards that pass every active dimension of `filters` at `now`,
/// in their original order.
pub fn filter_cards(cards: Vec<Card>, filters: &ListFilters, now: Timestamp) -> (r: Vec<Card>)
    ensures
        r@ == filtered(cards@, filters.spec(), now),
{
    let ghost all = cards@;
    let ghost pred = passes_pred(filters.spec(), now);
    let mut rest = cards;
    let mut out: Vec<Card> = Vec::new();
    let ghost k: int = 0;
    while rest.len() > 0
        invariant
            pred == passes_pred(filters.spec(), now),
            0 <= k <= all.len(),
            rest@ == all.subrange(k, all.len() as int),
            out@ == all.subrange(0, k).filter(pred),
        decreases rest@.len(),
    {
        let card = rest.remove(0);
        proof {
            assert(all.subrange(0, k + 1) =~= all.subrange(0, k).push(card));
            all.subrange(0, k).lemma_filter_push(card, pred);
            k = k + 1;
        }
        if card_passes(filters, &card, &now) {
            out.push(card);
        }
        assert(rest@ =~= all.subrange(k, all.len() as int));
    }
    assert(all.subrange(0, k) =~= all);
    out
}

proof fn lemma_filter_twice(s: Seq<Card>, p: spec_fn(Card) -> bool, q: spec_fn(Card) -> bool)
    ensures
        s.filter(p).filter(q) == s.filter(|c: Card| p(c) && q(c)),
    decreases s.len(),
{
    let both = |c: Card| p(c) && q(c);
    if s.len() == 0 {
        reveal(Seq::filter);
        assert(s.filter(p) =~= s);
        assert(s.filter(both) =~= s);
        assert(s.filter(p).filter(q) =~= s);
    } else {
        let init = s.drop_last();
        let x = s.last();
        assert(s =~= init.push(x));
        lemma_filter_twice(init, p, q);
        init.lemma_filter_push(x, p);
        init.lemma_filter_push(x, both);
        init.filter(p).lemma_filter_push(x, q);
    }
}

/// Filtering by one filter and then by another gives the same cards, in the
/// same order, as filtering in the other order, and as filtering once by both
/// filters together.
pub proof fn filter_order_irrelevant(cards: Seq<Card>, a: FilterSpec, b: FilterSpec, now: Timestamp)
    ensures
        filtered(filtered(cards, a, now), b, now) == filtered(filtered(cards, b, now), a, now),
        filtered(filtered(cards, a, now), b, now) == cards.filter(
            |c: Card| passes(a, c, now) && passes(b, c, now),
        ),
{
    let pa = passes_pred(a, now);
    let pb = passes_pred(b, now);
    lemma_filter_twice(cards, pa, pb);
    lemma_filter_twice(cards, pb, pa);
    let ab = |c: Card| pa(c) && pb(c);
    let ba = |c: Card| pb(c) && pa(c);
    let direct = |c: Card| passes(a, c, now) && passes(b, c, now);
    assert(ab == ba);
    assert(ab == direct);
}

/// The overdue dimension compares strictly: a card due before `now` passes it,
/// a card due exactly at `now` does not, and a card without a due date never
/// does.
pub proof fn overdue_is_strict(f: FilterSpec, c: Card, now: Timestamp)
    requires
        f.overdue,
    ensures
        f.priorities.len() == 0 && f.tags.len() == 0 ==> (passes(f, c, now) <==> (c.due_date matches Some(d)
            && d.spec_before(now))),
        c.due_date == Some(now) ==> !passes(f, c, now),
        c.due_date is None ==> !passes(f, c, now),
{
}

} // verus!
