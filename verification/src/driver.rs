use vstd::prelude::*;

use crate::error::ConfluenceError;
use crate::fetch::PAGE_SIZE;
use crate::pages::ConfluencePage;
use crate::url::build_page_url;
use crate::url::page_url_spec;

verus! {

/// The pagination driver: issues page requests at a strictly increasing
/// offset (a fixed stride of `PAGE_SIZE`), appends each non-empty page's
/// items in the order received, and reports completion on the first empty
/// page. The caller performs the fetch itself and hands each page back
/// through `apply_page`.
pub struct PaginationDriver {
    collected: Vec<ConfluencePage>,
    start: usize,
    fetched: Ghost<Seq<Seq<ConfluencePage>>>,
}

impl PaginationDriver {
    /// The items aggregated so far, in page order.
    pub closed spec fn items(self) -> Seq<ConfluencePage> {
        self.collected@
    }

    /// The non-empty pages applied so far, in the order they were fetched.
    pub closed spec fn pages(self) -> Seq<Seq<ConfluencePage>> {
        self.fetched@
    }

    /// How many non-empty pages have been applied.
    pub open spec fn pages_fetched(self) -> nat {
        self.pages().len()
    }

    /// The offset the next page request will use.
    pub closed spec fn next_start(self) -> nat {
        self.start as nat
    }

    /// The driver's invariant: the next offset is exactly the number of pages
    /// applied times the stride, the aggregate is exactly the concatenation
    /// of the applied pages, and every applied page was non-empty.
    pub closed spec fn wf(self) -> bool {
        &&& self.start as nat == self.fetched@.len() * (PAGE_SIZE as nat)
        &&& self.collected@ == self.fetched@.flatten()
        &&& forall|i: int| 0 <= i < self.fetched@.len() ==> #[trigger] self.fetched@[i].len() > 0
    }

    /// A fresh driver: offset zero, nothing collected.
    pub fn new() -> (d: Self)
        ensures
            d.wf(),
            d.items() == Seq::<ConfluencePage>::empty(),
            d.pages() == Seq::<Seq<ConfluencePage>>::empty(),
            d.next_start() == 0,
    {
        let d = PaginationDriver {
            collected: Vec::new(),
            start: 0,
            fetched: Ghost(Seq::empty()),
        };
        proof {
            assert(d.fetched@.flatten() =~= Seq::<ConfluencePage>::empty());
        }
        d
    }

    /// The offset of the next request, as a value the caller can test.
    pub fn current_start(&self) -> (s: usize)
        ensures
            s as nat == self.next_start(),
    {
        self.start
    }

    /// The URL the next page request must use: the page at this driver's
    /// current offset, with the fixed page size.
    pub fn next_url(&self, base: &str, space_key: &str) -> (u: String)
        ensures
            u@ == page_url_spec(base@, space_key@, PAGE_SIZE as nat, self.next_start()),
    {
        build_page_url(base, space_key, PAGE_SIZE, self.start)
    }

    /// Applies one successfully fetched page. An empty page means the end of
    /// the data: the driver reports completion and changes nothing. A
    /// non-empty page is appended whole, in order, and the offset advances by
    /// exactly one stride.
    pub fn apply_page(&mut self, items: Vec<ConfluencePage>) -> (done: bool)
        requires
            old(self).wf(),
            old(self).next_start() + PAGE_SIZE <= usize::MAX,
        ensures
            final(self).wf(),
            done == (items@.len() == 0),
            done ==> *final(self) == *old(self),
            !done ==> final(self).pages() == old(self).pages().push(items@),
            !done ==> final(self).items() == old(self).items() + items@,
            !done ==> final(self).next_start() == old(self).next_start() + PAGE_SIZE,
    {
        if items.len() == 0 {
            true
        } else {
            let ghost page = items@;
            let mut items = items;
            self.collected.append(&mut items);
            self.start = self.start + PAGE_SIZE;
            proof {
                self.fetched@ = self.fetched@.push(page);
                broadcast use Seq::lemma_flatten_push;

                assert(self.collected@ =~= self.fetched@.flatten());
                assert(self.fetched@.len() == old(self).fetched@.len() + 1);
                vstd::arithmetic::mul::lemma_mul_is_distributive_add_other_way(
                    PAGE_SIZE as int,
                    old(self).fetched@.len() as int,
                    1,
                );
            }
            false
        }
    }

    /// Hands the aggregate over: exactly the items collected, in order.
    pub fn into_items(self) -> (v: Vec<ConfluencePage>)
        ensures
            v@ == self.items(),
    {
        self.collected
    }
}

/// One fetch outcome, abstracted: the page's items, or the classified failure.
pub open spec fn outcome_view(o: Result<Vec<ConfluencePage>, ConfluenceError>) -> Result<
    Seq<ConfluencePage>,
    ConfluenceError,
> {
    match o {
        Ok(items) => Ok(items@),
        Err(e) => Err(e),
    }
}

/// A whole outcome sequence, abstracted elementwise.
pub open spec fn outcomes_view(v: Seq<Result<Vec<ConfluencePage>, ConfluenceError>>) -> Seq<
    Result<Seq<ConfluencePage>, ConfluenceError>,
> {
    v.map_values(|o: Result<Vec<ConfluencePage>, ConfluenceError>| outcome_view(o))
}

/// A terminal outcome: a failure, or the empty page that ends the data.
pub open spec fn is_terminal(o: Result<Seq<ConfluencePage>, ConfluenceError>) -> bool {
    match o {
        Ok(items) => items.len() == 0,
        Err(_) => true,
    }
}

/// Whether some outcome in the stream ends the run.
pub open spec fn has_terminal(outcomes: Seq<Result<Seq<ConfluencePage>, ConfluenceError>>) -> bool {
    exists|i: int| 0 <= i < outcomes.len() && is_terminal(#[trigger] outcomes[i])
}

/// What a pagination run yields on a given stream of fetch outcomes: the
/// first failure, unchanged and with no items beside it; or, at the first
/// empty page, the concatenation of every page before it, in fetch order.
pub open spec fn spec_run(outcomes: Seq<Result<Seq<ConfluencePage>, ConfluenceError>>) -> Result<
    Seq<ConfluencePage>,
    ConfluenceError,
>
    decreases outcomes.len(),
{
    if outcomes.len() == 0 {
        Ok(Seq::empty())
    } else {
        match outcomes[0] {
            Err(e) => Err(e),
            Ok(items) => if items.len() == 0 {
                Ok(Seq::empty())
            } else {
                match spec_run(outcomes.drop_first()) {
                    Ok(rest) => Ok(items + rest),
                    Err(e) => Err(e),
                }
            },
        }
    }
}

/// How many fetches a run performs: every outcome up to and including the
/// first terminal one.
pub open spec fn spec_requests(outcomes: Seq<Result<Seq<ConfluencePage>, ConfluenceError>>) -> nat
    decreases outcomes.len(),
{
    if outcomes.len() == 0 {
        0
    } else if is_terminal(outcomes[0]) {
        1
    } else {
        1 + spec_requests(outcomes.drop_first())
    }
}

spec fn prepend_items(
    acc: Seq<ConfluencePage>,
    r: Result<Seq<ConfluencePage>, ConfluenceError>,
) -> Result<Seq<ConfluencePage>, ConfluenceError> {
    match r {
        Ok(rest) => Ok(acc + rest),
        Err(e) => Err(e),
    }
}

/// Runs the pagination loop over a stream of already-classified fetch
/// outcomes, in order: stops at the first failure with exactly that failure
/// and no items, or at the first empty page with the concatenation of every
/// page before it. Also reports how many outcomes were consumed, that is,
/// how many requests the run made.
#[verifier::loop_isolation(false)]
pub fn run_pagination(outcomes: Vec<Result<Vec<ConfluencePage>, ConfluenceError>>) -> (r: (
    Result<Vec<ConfluencePage>, ConfluenceError>,
    usize,
))
    requires
        has_terminal(outcomes_view(outcomes@)),
        outcomes@.len() * PAGE_SIZE <= usize::MAX,
    ensures
        outcome_view(r.0) == spec_run(outcomes_view(outcomes@)),
        r.1 as nat == spec_requests(outcomes_view(outcomes@)),
{
    let ghost full = outcomes_view(outcomes@);
    let mut rest = outcomes;
    let mut driver = PaginationDriver::new();
    let mut requests: usize = 0;
    proof {
        match spec_run(full) {
            Ok(s) => {
                assert(Seq::<ConfluencePage>::empty() + s =~= s);
            },
            Err(_) => {},
        }
    }
    loop
        invariant
            driver.wf(),
            driver.pages_fetched() == requests as nat,
            requests as nat + rest@.len() == full.len(),
            has_terminal(outcomes_view(rest@)),
            spec_run(full) == prepend_items(driver.items(), spec_run(outcomes_view(rest@))),
            spec_requests(full) == requests as nat + spec_requests(outcomes_view(rest@)),
        decreases rest@.len(),
    {
        let ghost prev = outcomes_view(rest@);
        let ghost prev_items = driver.items();
        proof {
            let ti = choose|i: int| 0 <= i < prev.len() && is_terminal(prev[i]);
            assert(prev.len() > 0);
        }
        let next = rest.remove(0);
        requests = requests + 1;
        proof {
            assert(outcome_view(next) == prev[0]);
            assert(outcomes_view(rest@) =~= prev.drop_first());
        }
        match next {
            Err(e) => {
                return (Err(e), requests);
            },
            Ok(items) => {
                let ghost page = items@;
                proof {
                    vstd::arithmetic::mul::lemma_mul_inequality(
                        requests as int,
                        full.len() as int,
                        PAGE_SIZE as int,
                    );
                    vstd::arithmetic::mul::lemma_mul_is_distributive_add_other_way(
                        PAGE_SIZE as int,
                        requests as int - 1,
                        1,
                    );
                }
                let done = driver.apply_page(items);
                if done {
                    proof {
                        assert(prev_items + Seq::<ConfluencePage>::empty() =~= prev_items);
                    }
                    return (Ok(driver.into_items()), requests);
                }
                proof {
                    let cur = outcomes_view(rest@);
                    assert(!is_terminal(prev[0]));
                    let ti = choose|i: int| 0 <= i < prev.len() && is_terminal(prev[i]);
                    assert(is_terminal(cur[ti - 1]));
                    match spec_run(cur) {
                        Ok(r) => {
                            assert(prev_items + (page + r) =~= (prev_items + page) + r);
                        },
                        Err(_) => {},
                    }
                }
            },
        }
    }
}

/// Termination with full aggregation, and order preservation: a run over any
/// finite sequence of non-empty pages followed by one empty page succeeds and
/// returns exactly the concatenation of those pages' items, in fetch order,
/// with no reordering and no deduplication.
pub proof fn lemma_run_returns_pages_in_order(pages: Seq<Seq<ConfluencePage>>)
    requires
        forall|i: int| 0 <= i < pages.len() ==> #[trigger] pages[i].len() > 0,
    ensures
        spec_run(page_outcomes(pages).push(Ok(Seq::empty()))) == Ok::<_, ConfluenceError>(
            pages.flatten(),
        ),
    decreases pages.len(),
{
    let os = page_outcomes(pages).push(Ok(Seq::empty()));
    if pages.len() == 0 {
        assert(os[0] == Ok::<Seq<ConfluencePage>, ConfluenceError>(Seq::empty()));
        assert(pages.flatten() =~= Seq::<ConfluencePage>::empty());
    } else {
        assert(os[0] == Ok::<Seq<ConfluencePage>, ConfluenceError>(pages[0]));
        assert(os.drop_first() =~= page_outcomes(pages.drop_first()).push(Ok(Seq::empty())));
        lemma_run_returns_pages_in_order(pages.drop_first());
        assert(pages.flatten() == pages[0] + pages.drop_first().flatten());
    }
}

/// Atomicity on failure: if every fetch before the Nth returned a non-empty
/// page and the Nth fetch failed, the run's result is exactly that failure,
/// never a partial list, no matter how many items were accumulated before it
/// and no matter what outcomes would have followed.
pub proof fn lemma_run_failure_is_atomic(
    pages: Seq<Seq<ConfluencePage>>,
    failure: ConfluenceError,
    later: Seq<Result<Seq<ConfluencePage>, ConfluenceError>>,
)
    requires
        forall|i: int| 0 <= i < pages.len() ==> #[trigger] pages[i].len() > 0,
    ensures
        spec_run(page_outcomes(pages).push(Err(failure)) + later) == Err::<
            Seq<ConfluencePage>,
            ConfluenceError,
        >(failure),
    decreases pages.len(),
{
    let os = page_outcomes(pages).push(Err(failure)) + later;
    if pages.len() == 0 {
        assert(os[0] == Err::<Seq<ConfluencePage>, ConfluenceError>(failure));
    } else {
        assert(os[0] == Ok::<Seq<ConfluencePage>, ConfluenceError>(pages[0]));
        assert(os.drop_first() =~= page_outcomes(pages.drop_first()).push(Err(failure)) + later);
        lemma_run_failure_is_atomic(pages.drop_first(), failure, later);
    }
}

/// Empty-input idempotence: if the very first fetch returns zero items, the
/// run's result is the empty collection, not an error, whatever outcomes
/// would have followed.
pub proof fn lemma_run_empty_first_page(later: Seq<Result<Seq<ConfluencePage>, ConfluenceError>>)
    ensures
        spec_run(seq![Ok::<Seq<ConfluencePage>, ConfluenceError>(Seq::empty())] + later) == Ok::<
            Seq<ConfluencePage>,
            ConfluenceError,
        >(Seq::<ConfluencePage>::empty()),
{
    let os = seq![Ok::<Seq<ConfluencePage>, ConfluenceError>(Seq::empty())] + later;
    assert(os[0] == Ok::<Seq<ConfluencePage>, ConfluenceError>(Seq::<ConfluencePage>::empty()));
}

/// A sequence of non-empty pages, as the outcomes of their fetches.
pub open spec fn page_outcomes(pages: Seq<Seq<ConfluencePage>>) -> Seq<
    Result<Seq<ConfluencePage>, ConfluenceError>,
> {
    pages.map_values(|p: Seq<ConfluencePage>| Ok::<Seq<ConfluencePage>, ConfluenceError>(p))
}

/// Offset monotonicity, first half: at every reachable driver state, the next
/// request's offset is exactly the number of pages applied so far times the
/// fixed stride -- the Nth fetch requests offset N * PAGE_SIZE.
pub proof fn lemma_next_offset_is_stride_multiple(d: PaginationDriver)
    requires
        d.wf(),
    ensures
        d.next_start() == d.pages_fetched() * (PAGE_SIZE as nat),
{
}

/// Offset monotonicity, second half: two distinct fetch indices never request
/// the same offset, so no offset is ever requested twice.
pub proof fn lemma_offsets_never_repeat(m: nat, n: nat)
    requires
        m != n,
    ensures
        m * (PAGE_SIZE as nat) != n * (PAGE_SIZE as nat),
{
    if m < n {
        vstd::arithmetic::mul::lemma_mul_strict_inequality(m as int, n as int, PAGE_SIZE as int);
    } else {
        vstd::arithmetic::mul::lemma_mul_strict_inequality(n as int, m as int, PAGE_SIZE as int);
    }
}

} // verus!
