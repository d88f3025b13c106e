//! Deterministic fake remotes and the full search flow run against them.
//!
//! A [`FixtureRemote`] answers page requests out of a fixed item list, the
//! way the live API answers them out of its database; [`search_fixture`]
//! drives the very same [`Paginator`] steps a live search runs, so the
//! engine's behaviour — how many pages an unbounded walk fetches, and which
//! items it accumulates — is pinned down and proved here.

use vstd::arithmetic::div_mod::{
    lemma_basic_div, lemma_div_by_multiple, lemma_div_is_ordered, lemma_div_non_zero,
    lemma_fundamental_div_mod, lemma_fundamental_div_mod_converse,
    lemma_mod_division_less_than_divisor,
};
use vstd::prelude::*;

use crate::pagination::{spec_data_seq, spec_page_or_one, spec_stop, Paginator};
use crate::response::{ApiResponse, PaginatedApiResponse};

verus! {

/// The smaller of two integers.
pub open spec fn min_int(a: int, b: int) -> int {
    if a <= b {
        a
    } else {
        b
    }
}

/// The items a remote with `items` serves on page `page` (1-based) at
/// `ps` items per page: the slice starting at `(page - 1) * ps`, cut off
/// at the end of the list, empty beyond it.
pub open spec fn spec_page_slice<T>(items: Seq<T>, page: int, ps: int) -> Seq<T>
    recommends
        1 <= page,
        1 <= ps,
{
    let start = (page - 1) * ps;
    if start >= items.len() {
        Seq::empty()
    } else if start + ps <= items.len() {
        items.subrange(start, start + ps)
    } else {
        items.subrange(start, items.len() as int)
    }
}

/// How many pages an unbounded walk fetches from a remote with `total`
/// items at `ps` items per page: one fetch per page the result spans, the
/// final partial page counted as one, and always at least one fetch —
/// `max(1, ceiling(total / ps))`, the ceiling written as a floor.
pub open spec fn spec_fetches(total: int, ps: int) -> int
    recommends
        1 <= ps,
        0 <= total,
{
    let q = (total + ps - 1) / ps;
    if q < 1 {
        1
    } else {
        q
    }
}

/// How many items an unbounded walk accumulates from a remote with `total`
/// items at `ps` items per page: everything the fetched pages carry, which
/// the walk's stop rule makes the whole result.
pub open spec fn spec_collected(total: int, ps: int) -> int
    recommends
        1 <= ps,
        0 <= total,
{
    min_int(total, spec_fetches(total, ps) * ps)
}

/// An accumulator's final wrapping: absence instead of an empty list.
pub open spec fn spec_wrap<T>(s: Seq<T>) -> Option<Seq<T>> {
    if s.len() > 0 {
        Option::Some(s)
    } else {
        Option::None
    }
}

/// The view of an optional item list.
pub open spec fn spec_opt_vec_view<T>(o: Option<Vec<T>>) -> Option<Seq<T>> {
    match o {
        Option::None => Option::None,
        Option::Some(v) => Option::Some(v@),
    }
}

/// What a whole search against a remote with `items` yields: one page
/// slice when the descriptor pins `page`, everything the unbounded walk
/// accumulates when it does not, wrapped as absence when empty.
pub open spec fn spec_search_result<T>(
    items: Seq<T>,
    dps: int,
    page: Option<u32>,
    ps: Option<u32>,
) -> Option<Seq<T>> {
    let eff = match ps {
        Option::None => dps,
        Option::Some(v) => v as int,
    };
    match page {
        Option::None => spec_wrap(items.subrange(0, spec_collected(items.len() as int, eff))),
        Option::Some(p) => spec_wrap(spec_page_slice(items, p as int, eff)),
    }
}

/// A deterministic fake remote: a fixed, ordered item list served page by
/// page, with the page metadata the live API would attach.
pub struct FixtureRemote<T> {
    /// Every item the remote holds, in its serving order.
    pub items: Vec<T>,
    /// The page size the remote falls back to when a request pins none.
    pub default_page_size: u32,
}

impl<T: Copy> FixtureRemote<T> {
    /// A remote only serves wire-representable shapes: its counts fit the
    /// envelope's integers and its fallback page size is positive.
    pub open spec fn wf(&self) -> bool {
        &&& 1 <= self.default_page_size <= i32::MAX
        &&& self.items@.len() <= i32::MAX
    }

    /// The page size a request with page-size field `ps` is served with.
    pub open spec fn spec_eff_ps(&self, ps: Option<u32>) -> int {
        match ps {
            Option::None => self.default_page_size as int,
            Option::Some(v) => v as int,
        }
    }

    /// Serves one page request: the requested slice of the item list plus
    /// the page metadata, with an unset page treated as page one.
    pub fn respond(&self, page: Option<u32>, page_size: Option<u32>) -> (env: PaginatedApiResponse<
        T,
    >)
        requires
            self.wf(),
            page matches Some(p) ==> 1 <= p <= i32::MAX,
            page_size matches Some(v) ==> 1 <= v <= i32::MAX,
        ensures
            env.page == spec_page_or_one(page),
            env.page_size == self.spec_eff_ps(page_size),
            env.total_count == self.items@.len(),
            spec_data_seq(env.data) == spec_page_slice(
                self.items@,
                spec_page_or_one(page),
                self.spec_eff_ps(page_size),
            ),
            env.count == spec_page_slice(
                self.items@,
                spec_page_or_one(page),
                self.spec_eff_ps(page_size),
            ).len(),
    {
        let p: u32 = match page {
            Option::None => 1,
            Option::Some(v) => v,
        };
        let ps: u32 = match page_size {
            Option::None => self.default_page_size,
            Option::Some(v) => v,
        };
        let total: usize = self.items.len();
        proof {
            assert(1 <= p && 1 <= ps);
            assert((p as int - 1) * (ps as int) <= 0x7fff_ffff * 0x7fff_ffff)
                by (nonlinear_arith)
                requires
                    1 <= p <= 0x7fff_ffff,
                    1 <= ps <= 0x7fff_ffff,
            ;
            assert(0 <= (p as int - 1) * (ps as int)) by (nonlinear_arith)
                requires
                    1 <= p,
                    1 <= ps,
            ;
        }
        let start64: u64 = (p as u64 - 1) * (ps as u64);
        let mut data: Vec<T> = Vec::new();
        if start64 < total as u64 {
            let start: usize = start64 as usize;
            let end: usize = if (total as u64) - start64 > ps as u64 {
                start + (ps as usize)
            } else {
                total
            };
            let mut i: usize = start;
            while i < end
                invariant
                    start <= i <= end <= self.items@.len(),
                    data@ == self.items@.subrange(start as int, i as int),
                decreases end - i,
            {
                data.push(self.items[i]);
                proof {
                    assert(data@ =~= self.items@.subrange(start as int, i as int + 1));
                }
                i = i + 1;
            }
        }
        proof {
            assert(spec_data_seq(Some(data)) =~= spec_page_slice(
                self.items@,
                p as int,
                ps as int,
            ));
        }
        let count: i32 = data.len() as i32;
        PaginatedApiResponse {
            data: Some(data),
            page: p as i32,
            page_size: ps as i32,
            count,
            total_count: total as i32,
        }
    }
}

/// One pagination step accumulates exactly the next page slice: what pages
/// one through `f` carry, plus page `f + 1`, is what pages one through
/// `f + 1` carry.
proof fn lemma_acc_step<T>(items: Seq<T>, f: int, eff: int)
    requires
        0 <= f,
        1 <= eff,
    ensures
        items.subrange(0, min_int(items.len() as int, f * eff)) + spec_page_slice(
            items,
            f + 1,
            eff,
        ) == items.subrange(0, min_int(items.len() as int, (f + 1) * eff)),
{
    let total = items.len() as int;
    assert(0 <= f * eff && f * eff + eff == (f + 1) * eff) by (nonlinear_arith)
        requires
            0 <= f,
            1 <= eff,
    ;
    let start = f * eff;
    if start >= total {
        assert(items.subrange(0, total) + spec_page_slice(items, f + 1, eff) =~= items.subrange(
            0,
            total,
        ));
    } else {
        let m1 = min_int(total, start + eff);
        assert(items.subrange(0, start) + items.subrange(start, m1) =~= items.subrange(0, m1));
    }
}

/// A page whose items fall short of the total is not the last one: after
/// `f` full fetches with `f * eff < total` more pages remain, so `f` is
/// strictly below the walk's fetch count.
proof fn lemma_below_ceiling(total: int, eff: int, f: int)
    requires
        1 <= eff,
        1 <= f,
        f * eff < total,
    ensures
        f < spec_fetches(total, eff),
{
    assert((f + 1) * eff == f * eff + eff) by (nonlinear_arith);
    lemma_div_is_ordered((f + 1) * eff, total + eff - 1, eff);
    lemma_div_by_multiple(f + 1, eff);
}

/// The page on which the walk stops is exactly the ceiling quotient: `n`
/// covers the total while page `n - 1` (if any) did not, so `n` is the
/// walk's fetch count.
proof fn lemma_fetches_pinned(total: int, eff: int, n: int)
    requires
        0 <= total,
        1 <= eff,
        1 <= n,
        n * eff >= total,
        n == 1 || (n - 1) * eff < total,
    ensures
        n == spec_fetches(total, eff),
{
    if n == 1 {
        if total == 0 {
            lemma_basic_div(eff - 1, eff);
        } else {
            lemma_fundamental_div_mod_converse(total + eff - 1, eff, 1, total - 1);
        }
    } else {
        assert((n - 1) * eff == n * eff - eff) by (nonlinear_arith);
        lemma_fundamental_div_mod_converse(total + eff - 1, eff, n, total + eff - 1 - n * eff);
    }
}

/// The fetched pages cover the whole result: the walk's fetch count times
/// the page size is at least the total.
proof fn lemma_ceiling_covers(total: int, ps: int)
    requires
        0 <= total,
        1 <= ps,
    ensures
        spec_fetches(total, ps) >= 1,
        spec_fetches(total, ps) * ps >= total,
        spec_collected(total, ps) == total,
{
    let q = (total + ps - 1) / ps;
    lemma_fundamental_div_mod(total + ps - 1, ps);
    lemma_mod_division_less_than_divisor(total + ps - 1, ps);
    assert(ps * q >= total);
    assert(q * ps == ps * q) by (nonlinear_arith);
    if q < 1 {
        assert(ps * q <= 0) by (nonlinear_arith)
            requires
                q <= 0,
                ps >= 1,
        ;
        assert(total == 0);
        assert(spec_fetches(total, ps) == 1);
    } else {
        assert(spec_fetches(total, ps) == q);
    }
    assert(spec_fetches(total, ps) * ps >= total);
}

/// Runs a whole search against a fixture remote: the identical paginator
/// steps a live search runs, fed from `remote` instead of the network.
/// Returns the wrapped result and how many page fetches were issued.
///
/// An unbounded walk (no pinned page) fetches pages one, two, ... and
/// stops with the page that brings the items fetched so far up to the
/// total count — right after the last, possibly partial, page, so the
/// whole result is accumulated; a pinned page is fetched exactly once.
pub fn search_fixture<T: Copy>(
    remote: &FixtureRemote<T>,
    page: Option<u32>,
    page_size: Option<u32>,
) -> (r: (Option<Vec<T>>, u32))
    requires
        remote.wf(),
        page matches Some(p) ==> 1 <= p <= i32::MAX,
        page_size matches Some(v) ==> 1 <= v <= i32::MAX,
    ensures
        spec_opt_vec_view(r.0) == spec_search_result(
            remote.items@,
            remote.default_page_size as int,
            page,
            page_size,
        ),
        page is Some ==> r.1 == 1,
        page is None ==> r.1 == spec_fetches(
            remote.items@.len() as int,
            remote.spec_eff_ps(page_size),
        ),
{
    let ghost total: int = remote.items@.len() as int;
    let ghost eff: int = remote.spec_eff_ps(page_size);
    let ghost fcount: int = spec_fetches(total, eff);
    proof {
        lemma_ceiling_covers(total, eff);
    }
    let mut pag: Paginator<T> = Paginator::begin(page);
    let mut fetches: u32 = 0;
    proof {
        assert(Seq::<T>::empty() =~= remote.items@.subrange(0, 0));
    }
    loop
        invariant_except_break
            !pag.finished,
            page is Some ==> fetches == 0 && pag.page == page && pag.items@ == Seq::<T>::empty(),
            page is None ==> {
                &&& fetches == 0 ==> pag.page is None
                &&& fetches >= 1 ==> fetches as int * eff < total && fetches < fcount && (
                pag.page matches Some(v) && v == fetches + 1)
                &&& pag.items@ == remote.items@.subrange(
                    0,
                    min_int(total, fetches as int * eff),
                )
            },
        invariant
            remote.wf(),
            page matches Some(p) ==> 1 <= p <= i32::MAX,
            page_size matches Some(v) ==> 1 <= v <= i32::MAX,
            total == remote.items@.len() as int,
            eff == remote.spec_eff_ps(page_size),
            fcount == spec_fetches(total, eff),
            1 <= fcount,
            pag.pinned == (page is Some),
        ensures
            page matches Some(p) ==> fetches == 1 && pag.items@ == spec_page_slice(
                remote.items@,
                p as int,
                eff,
            ),
            page is None ==> fetches == fcount && pag.items@ == remote.items@.subrange(
                0,
                spec_collected(total, eff),
            ),
        decreases fcount + 1 - fetches,
    {
        let cur = pag.next_page();
        let ghost f: int = fetches as int;
        proof {
            if page is None {
                assert(spec_page_or_one(cur) == f + 1);
                if f >= 1 {
                    assert(f <= f * eff) by (nonlinear_arith)
                        requires
                            1 <= f,
                            1 <= eff,
                    ;
                }
            }
        }
        let env = remote.respond(cur, page_size);
        let more = pag.absorb(env.data, env.page, env.page_size, env.total_count);
        fetches = fetches + 1;
        proof {
            if page is None {
                lemma_acc_step(remote.items@, f, eff);
                assert(more == !spec_stop(f + 1, eff, total));
            } else {
                assert(Seq::<T>::empty() + spec_data_seq(env.data) =~= spec_data_seq(env.data));
            }
        }
        if !more {
            proof {
                if page is None {
                    lemma_fetches_pinned(total, eff, f + 1);
                }
            }
            break;
        }
        proof {
            if page is None {
                lemma_below_ceiling(total, eff, f + 1);
            }
        }
    }
    (pag.finish(), fetches)
}

/// An unbounded walk accumulates every item the remote holds: the final
/// accumulated count equals the remote's total count, whatever the page
/// size, the final partial page fetched like any other.
pub proof fn lemma_unbounded_walk_collects_all<T>(items: Seq<T>, ps: int)
    requires
        1 <= ps <= u32::MAX,
    ensures
        spec_collected(items.len() as int, ps) == items.len(),
        items.subrange(0, spec_collected(items.len() as int, ps)) == items,
        forall|dps: int|
            #[trigger] spec_search_result(items, dps, Option::None, Option::Some(ps as u32))
                == spec_wrap(items),
{
    lemma_ceiling_covers(items.len() as int, ps);
    assert(items.subrange(0, items.len() as int) =~= items);
}

/// When the total count is an exact positive multiple of the page size,
/// the unbounded walk performs exactly `total / ps` fetches — it stops
/// right after the last full page and never issues a trailing empty-page
/// request — and accumulates every item.
pub proof fn lemma_exact_multiple_stops_after_last_page(total: int, ps: int)
    requires
        1 <= ps <= total,
        total % ps == 0,
    ensures
        spec_fetches(total, ps) == total / ps,
        spec_collected(total, ps) == total,
{
    let k = total / ps;
    lemma_div_non_zero(total, ps);
    lemma_fundamental_div_mod(total, ps);
    assert((k - 1) * ps == k * ps - ps) by (nonlinear_arith);
    lemma_fetches_pinned(total, ps, k);
    lemma_ceiling_covers(total, ps);
}

/// A pinned page that lies entirely within the result is served full: when
/// `page * ps` items exist, page `page` carries exactly `ps` items.
pub proof fn lemma_pinned_page_full<T>(items: Seq<T>, page: int, ps: int)
    requires
        1 <= page <= u32::MAX,
        1 <= ps <= u32::MAX,
        page * ps <= items.len(),
    ensures
        spec_page_slice(items, page, ps).len() == ps,
        forall|dps: int|
            #[trigger] spec_search_result(items, dps, Option::Some(page as u32), Option::Some(
                ps as u32,
            )) matches Some(s) && s.len() == ps,
{
    assert(0 <= (page - 1) * ps && (page - 1) * ps + ps == page * ps) by (nonlinear_arith)
        requires
            1 <= page,
            1 <= ps,
    ;
}

/// The terminal execute operation is idempotent: the result of a search is
/// a function of the remote's contents and the descriptor's page fields
/// alone, so two executions of the same configuration against the same
/// remote yield the same outcome.
pub proof fn lemma_execute_idempotent<T>(
    items: Seq<T>,
    dps: int,
    page: Option<u32>,
    ps: Option<u32>,
    r1: Option<Seq<T>>,
    r2: Option<Seq<T>>,
)
    requires
        r1 == spec_search_result(items, dps, page, ps),
        r2 == spec_search_result(items, dps, page, ps),
    ensures
        r1 == r2,
{
}

/// The first record with a given id, scanning from `from`.
pub open spec fn spec_find<T>(records: Seq<(String, T)>, id: Seq<char>, from: int) -> Option<T>
    recommends
        0 <= from <= records.len(),
    decreases records.len() - from,
{
    if from < 0 || from >= records.len() {
        Option::None
    } else if records[from].0@ == id {
        Option::Some(records[from].1)
    } else {
        spec_find(records, id, from + 1)
    }
}

/// A deterministic fake remote for the id-addressed endpoints: a fixed
/// list of `(id, record)` pairs, served through the single-item envelope.
pub struct FixtureStore<T> {
    /// The records the remote holds, each under its id.
    pub records: Vec<(String, T)>,
}

impl<T: Copy> FixtureStore<T> {
    /// Serves one get-by-id request: the single-item envelope, whose
    /// payload is absent — not an error — when no record has the id.
    pub fn respond_single(&self, id: &str) -> (env: ApiResponse<T>)
        ensures
            env.data == spec_find(self.records@, id@, 0),
    {
        let owned_id = id.to_owned();
        let n = self.records.len();
        let mut i: usize = 0;
        while i < n
            invariant
                0 <= i <= n,
                n == self.records@.len(),
                owned_id@ == id@,
                spec_find(self.records@, id@, 0) == spec_find(self.records@, id@, i as int),
            decreases n - i,
        {
            let record = &self.records[i];
            proof {
                assert(*record == self.records@[i as int]);
            }
            if record.0.eq(&owned_id) {
                proof {
                    assert(spec_find(self.records@, id@, i as int) == Some(record.1));
                }
                return ApiResponse { data: Some(record.1) };
            }
            proof {
                assert(spec_find(self.records@, id@, i as int) == spec_find(
                    self.records@,
                    id@,
                    i as int + 1,
                ));
            }
            i = i + 1;
        }
        ApiResponse { data: None }
    }
}

/// Fetches one record by id from a fixture store, the way the id-addressed
/// endpoints do: one non-looping fetch, unwrapped from the single-item
/// envelope. An id no record carries yields absence, never an error.
pub fn get_by_id_fixture<T: Copy>(store: &FixtureStore<T>, id: &str) -> (r: Option<T>)
    ensures
        r == spec_find(store.records@, id@, 0),
{
    let env = store.respond_single(id);
    env.into_data()
}

} // verus!
