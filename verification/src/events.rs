use vstd::prelude::*;
use vstd::laws_eq::obeys_concrete_eq;
use vstd::std_specs::cmp::PartialEqSpec;

verus! {

/// Why a check on the event log failed.
#[derive(Clone, Copy, Debug, PartialEq, Eq, Structural)]
pub enum EventCheckError {
    /// The log holds fewer events than the check needs.
    MissingEvent,
    /// The event at `position` of the log is not the one expected there.
    Mismatch { position: usize },
    /// No event of the log is the one looked for.
    NotEmitted,
}

/// The `j`-th event counted from the end of `log` (the latest one is `0`).
pub open spec fn from_end<E>(log: Seq<E>, j: int) -> E {
    log[log.len() - 1 - j]
}

/// The `k` latest events of `actual` are the `k` latest events of `expected`.
pub open spec fn agree_at_end<E>(actual: Seq<E>, expected: Seq<E>, k: int) -> bool {
    forall|j: int| 0 <= j < k ==> #[trigger] from_end(actual, j) == from_end(expected, j)
}

/// Counted from the end, `j` is the first place, inside both logs, where
/// `actual` and `expected` differ.
pub open spec fn first_disagreement<E>(actual: Seq<E>, expected: Seq<E>, j: int) -> bool {
    &&& 0 <= j < actual.len()
    &&& j < expected.len()
    &&& agree_at_end(actual, expected, j)
    &&& from_end(actual, j) != from_end(expected, j)
}

/// The outcome of checking that `expected` is the run of the latest events of
/// `actual`: success when it is a suffix of the log; otherwise the latest
/// event of the log that differs from the one expected at its place, or, where
/// all events of the log agree but too few are there, a missing event.
pub open spec fn events_check<E>(actual: Seq<E>, expected: Seq<E>) -> Result<(), EventCheckError> {
    if expected.is_suffix_of(actual) {
        Ok(())
    } else if exists|j: int| first_disagreement(actual, expected, j) {
        let j = choose|j: int| first_disagreement(actual, expected, j);
        Err(EventCheckError::Mismatch { position: (actual.len() - 1 - j) as usize })
    } else {
        Err(EventCheckError::MissingEvent)
    }
}

/// The outcome of checking that the latest event of `log` is `e`.
pub open spec fn latest_event_check<E>(log: Seq<E>, e: E) -> Result<(), EventCheckError> {
    if log.len() == 0 {
        Err(EventCheckError::MissingEvent)
    } else if log.last() != e {
        Err(EventCheckError::Mismatch { position: (log.len() - 1) as usize })
    } else {
        Ok(())
    }
}

/// The outcome of checking that `e` was emitted at some point.
pub open spec fn emitted_check<E>(log: Seq<E>, e: E) -> Result<(), EventCheckError> {
    if log.contains(e) {
        Ok(())
    } else {
        Err(EventCheckError::NotEmitted)
    }
}

proof fn lemma_first_disagreement_unique<E>(actual: Seq<E>, expected: Seq<E>, i: int, j: int)
    requires
        first_disagreement(actual, expected, i),
        first_disagreement(actual, expected, j),
    ensures
        i == j,
{
    if i < j {
        assert(from_end(actual, i) == from_end(expected, i));
    } else if j < i {
        assert(from_end(actual, j) == from_end(expected, j));
    }
}

proof fn lemma_agree_is_suffix<E>(actual: Seq<E>, expected: Seq<E>)
    requires
        expected.len() <= actual.len(),
    ensures
        agree_at_end(actual, expected, expected.len() as int) <==> expected.is_suffix_of(actual),
{
    let n = actual.len() as int;
    let m = expected.len() as int;
    let tail = actual.subrange(n - m, n);
    if agree_at_end(actual, expected, m) {
        assert forall|i: int| 0 <= i < m implies tail[i] == expected[i] by {
            assert(from_end(actual, m - 1 - i) == from_end(expected, m - 1 - i));
        }
        assert(expected =~= tail);
    }
    if expected.is_suffix_of(actual) {
        assert forall|j: int| 0 <= j < m implies #[trigger] from_end(actual, j) == from_end(
            expected,
            j,
        ) by {
            assert(tail[m - 1 - j] == expected[m - 1 - j]);
        }
    }
}

/// An empty run of expected events always matches: nothing is asked of the log.
pub proof fn law_empty_run_matches<E>(log: Seq<E>)
    ensures
        events_check(log, Seq::<E>::empty()) == Ok::<(), EventCheckError>(()),
{
    assert(Seq::<E>::empty() =~= log.subrange(log.len() as int, log.len() as int));
}

/// A whole log matches itself as the run of its latest events.
pub proof fn law_log_matches_itself<E>(log: Seq<E>)
    ensures
        events_check(log, log) == Ok::<(), EventCheckError>(()),
{
    assert(log =~= log.subrange(0, log.len() as int));
}

/// Every event of a run that matches the end of the log was emitted.
pub proof fn law_matched_events_were_emitted<E>(log: Seq<E>, run: Seq<E>, i: int)
    requires
        events_check(log, run) is Ok,
        0 <= i < run.len(),
    ensures
        emitted_check(log, run[i]) == Ok::<(), EventCheckError>(()),
{
    let at = log.len() - run.len() + i;
    assert(log.subrange(log.len() - run.len(), log.len() as int)[i] == log[at]);
    assert(log[at] == run[i]);
}

/// Any later part of a run that matches the end of the log matches it too:
/// the run may leave out older events but not newer ones.
pub proof fn law_later_part_of_run_matches<E>(log: Seq<E>, run: Seq<E>, k: int)
    requires
        events_check(log, run) is Ok,
        0 <= k <= run.len(),
    ensures
        events_check(log, run.subrange(k, run.len() as int)) == Ok::<(), EventCheckError>(()),
{
    let part = run.subrange(k, run.len() as int);
    let n = log.len() as int;
    assert(part =~= log.subrange(n - part.len(), n)) by {
        assert forall|i: int| 0 <= i < part.len() implies part[i] == log.subrange(
            n - part.len(),
            n,
        )[i] by {
            assert(log.subrange(n - run.len(), n)[k + i] == run[k + i]);
        }
    }
}

/// A run of one event matches exactly when that event is the latest one.
pub proof fn law_single_run_is_latest_event<E>(log: Seq<E>, e: E)
    ensures
        events_check(log, seq![e]) == latest_event_check(log, e),
{
    let n = log.len() as int;
    let run = seq![e];
    if n == 0 {
        assert(!(exists|j: int| first_disagreement(log, run, j)));
    } else {
        if log.last() == e {
            assert(run =~= log.subrange(n - 1, n));
        } else {
            assert(first_disagreement(log, run, 0));
            let j = choose|j: int| first_disagreement(log, run, j);
            lemma_first_disagreement_unique(log, run, j, 0);
        }
    }
}

/// The event deposited last is the latest event of the log.
pub proof fn law_deposited_event_is_latest<E>(log: Seq<E>, e: E)
    ensures
        latest_event_check(log.push(e), e) == Ok::<(), EventCheckError>(()),
{
}

/// An event once emitted stays emitted as more events are deposited, and the
/// deposited event is emitted.
pub proof fn law_emitted_events_stay<E>(log: Seq<E>, e: E, x: E)
    ensures
        emitted_check(log.push(x), x) == Ok::<(), EventCheckError>(()),
        emitted_check(log, e) is Ok ==> emitted_check(log.push(x), e) == Ok::<(), EventCheckError>(()),
{
    assert(log.push(x)[log.len() as int] == x);
    if log.contains(e) {
        let i = choose|i: int| 0 <= i < log.len() && log[i] == e;
        assert(log.push(x)[i] == e);
    }
}

proof fn lemma_push_agree<E>(actual: Seq<E>, expected: Seq<E>, x: E, k: int)
    requires
        0 <= k <= actual.len(),
        k <= expected.len(),
    ensures
        agree_at_end(actual.push(x), expected.push(x), k + 1) <==> agree_at_end(actual, expected, k),
{
    let a2 = actual.push(x);
    let e2 = expected.push(x);
    assert forall|j: int| 0 <= j < actual.len() implies #[trigger] from_end(a2, j + 1) == from_end(
        actual,
        j,
    ) by {}
    assert forall|j: int| 0 <= j < expected.len() implies #[trigger] from_end(e2, j + 1)
        == from_end(expected, j) by {}
    assert(from_end(a2, 0) == x && from_end(e2, 0) == x);
    if agree_at_end(actual, expected, k) {
        assert forall|j: int| 0 <= j < k + 1 implies #[trigger] from_end(a2, j) == from_end(e2, j) by {
            if j > 0 {
                assert(from_end(a2, (j - 1) + 1) == from_end(actual, j - 1));
                assert(from_end(e2, (j - 1) + 1) == from_end(expected, j - 1));
                assert(from_end(actual, j - 1) == from_end(expected, j - 1));
            }
        }
    }
    if agree_at_end(a2, e2, k + 1) {
        assert forall|j: int| 0 <= j < k implies #[trigger] from_end(actual, j) == from_end(
            expected,
            j,
        ) by {
            assert(from_end(a2, j + 1) == from_end(e2, j + 1));
        }
    }
}

/// Depositing the same new event on the log and on the expected run leaves
/// the outcome of the check unchanged.
pub proof fn law_same_new_event_keeps_outcome<E>(actual: Seq<E>, expected: Seq<E>, x: E)
    ensures
        events_check(actual.push(x), expected.push(x)) == events_check(actual, expected),
{
    let a2 = actual.push(x);
    let e2 = expected.push(x);
    let n = actual.len() as int;
    let m = expected.len() as int;
    assert forall|j: int| 0 <= j < actual.len() implies #[trigger] from_end(a2, j + 1) == from_end(
        actual,
        j,
    ) by {}
    assert forall|j: int| 0 <= j < expected.len() implies #[trigger] from_end(e2, j + 1)
        == from_end(expected, j) by {}
    // suffix
    if m <= n {
        lemma_push_agree(actual, expected, x, m);
        lemma_agree_is_suffix(actual, expected);
        lemma_agree_is_suffix(a2, e2);
    }
    // first disagreement
    assert forall|j: int| #[trigger] first_disagreement(a2, e2, j) implies j >= 1
        && first_disagreement(actual, expected, j - 1) by {
        assert(from_end(a2, 0) == from_end(e2, 0));
        if j == 0 {
        } else {
            lemma_push_agree(actual, expected, x, j - 1);
            assert(from_end(a2, (j - 1) + 1) == from_end(actual, j - 1));
            assert(from_end(e2, (j - 1) + 1) == from_end(expected, j - 1));
        }
    }
    assert forall|j: int| #[trigger] first_disagreement(actual, expected, j) implies first_disagreement(
        a2,
        e2,
        j + 1,
    ) by {
        lemma_push_agree(actual, expected, x, j);
    }
    if exists|j: int| first_disagreement(actual, expected, j) {
        let j = choose|j: int| first_disagreement(actual, expected, j);
        assert(first_disagreement(a2, e2, j + 1));
        let j2 = choose|j2: int| first_disagreement(a2, e2, j2);
        lemma_first_disagreement_unique(a2, e2, j2, j + 1);
    }
    if exists|j: int| first_disagreement(a2, e2, j) {
        let j2 = choose|j2: int| first_disagreement(a2, e2, j2);
        assert(first_disagreement(actual, expected, j2 - 1));
    }
}

/// The latest event of the log, if there is one.
pub fn latest_event<E>(log: &[E]) -> (r: Option<&E>)
    ensures
        log@.len() == 0 ==> r.is_none(),
        log@.len() > 0 ==> r == Some(&log@.last()),
{
    let n = log.len();
    if n == 0 {
        None
    } else {
        Some(&log[n - 1])
    }
}

/// Checks the latest events of `actual` against `expected`. A contiguous run
/// of events must be given: it must include the most recent event, but need
/// not include every past one. Comparison goes from the most recent event
/// backwards and stops at the first difference.
pub fn check_events<E: PartialEq>(actual: &[E], expected: &[E]) -> (r: Result<(), EventCheckError>)
    requires
        obeys_concrete_eq::<E>(),
    ensures
        r == events_check(actual@, expected@),
{
    proof {
        reveal(obeys_concrete_eq);
    }
    let n = actual.len();
    let m = expected.len();
    let mut k: usize = 0;
    while k < m
        invariant
            n == actual@.len(),
            m == expected@.len(),
            k <= m,
            k <= n,
            agree_at_end(actual@, expected@, k as int),
            obeys_concrete_eq::<E>(),
            forall|x: E, y: E| x.eq_spec(&y) <==> (x == y),
            E::obeys_eq_spec(),
        decreases m - k,
    {
        if k >= n {
            proof {
                assert(!expected@.is_suffix_of(actual@));
                if exists|j: int| first_disagreement(actual@, expected@, j) {
                    let j = choose|j: int| first_disagreement(actual@, expected@, j);
                    assert(from_end(actual@, j) == from_end(expected@, j));
                }
            }
            return Err(EventCheckError::MissingEvent);
        }
        let same = actual[n - 1 - k] == expected[m - 1 - k];
        if !same {
            proof {
                assert(from_end(actual@, k as int) != from_end(expected@, k as int));
                assert(first_disagreement(actual@, expected@, k as int));
                let j = choose|j: int| first_disagreement(actual@, expected@, j);
                lemma_first_disagreement_unique(actual@, expected@, j, k as int);
                if expected@.is_suffix_of(actual@) {
                    lemma_agree_is_suffix(actual@, expected@);
                    assert(from_end(actual@, k as int) == from_end(expected@, k as int));
                }
            }
            return Err(EventCheckError::Mismatch { position: n - 1 - k });
        }
        proof {
            assert(from_end(actual@, k as int) == from_end(expected@, k as int));
            assert forall|j: int| 0 <= j < k + 1 implies #[trigger] from_end(actual@, j)
                == from_end(expected@, j) by {
                if j < k {
                    assert(from_end(actual@, j) == from_end(expected@, j));
                }
            }
        }
        k = k + 1;
    }
    proof {
        lemma_agree_is_suffix(actual@, expected@);
    }
    Ok(())
}

/// Checks that the latest event of the log is `e`.
pub fn check_latest_event<E: PartialEq>(log: &[E], e: &E) -> (r: Result<(), EventCheckError>)
    requires
        obeys_concrete_eq::<E>(),
    ensures
        r == latest_event_check(log@, *e),
{
    proof {
        reveal(obeys_concrete_eq);
    }
    match latest_event(log) {
        None => Err(EventCheckError::MissingEvent),
        Some(last) => {
            if *last == *e {
                Ok(())
            } else {
                Err(EventCheckError::Mismatch { position: log.len() - 1 })
            }
        },
    }
}

/// Checks that `e` was emitted at some point.
pub fn check_event_emitted<E: PartialEq>(log: &[E], e: &E) -> (r: Result<(), EventCheckError>)
    requires
        obeys_concrete_eq::<E>(),
    ensures
        r == emitted_check(log@, *e),
{
    proof {
        reveal(obeys_concrete_eq);
    }
    let n = log.len();
    let mut i: usize = 0;
    while i < n
        invariant
            n == log@.len(),
            i <= n,
            forall|j: int| 0 <= j < i ==> log@[j] != *e,
            forall|x: E, y: E| x.eq_spec(&y) <==> (x == y),
            E::obeys_eq_spec(),
        decreases n - i,
    {
        if log[i] == *e {
            proof {
                assert(log@[i as int] == *e);
                assert(log@.contains(*e));
            }
            return Ok(());
        }
        i = i + 1;
    }
    proof {
        assert(!log@.contains(*e));
    }
    Err(EventCheckError::NotEmitted)
}

/// The latest event of the log, which must not be empty.
pub fn last_event<E>(log: &[E]) -> (r: &E)
    requires
        log@.len() > 0,
    ensures
        *r == log@.last(),
{
    &log[log.len() - 1]
}

/// Asserts that the latest events of `actual` are `expected`. A contiguous
/// run of events must be given: it must include the most recent event, but
/// need not include every past one. Where it is not so the check fails, and
/// the caller may not call it: see `check_events` for the failing outcomes.
pub fn assert_events<E: PartialEq>(actual: &[E], expected: &[E])
    requires
        obeys_concrete_eq::<E>(),
        expected@.is_suffix_of(actual@),
{
    let r = check_events(actual, expected);
    assert(r is Ok);
}

/// Asserts that the latest event of the log is `e`. On an empty log, or where
/// the latest event is another one, the check fails, and the caller may not
/// call it: see `check_latest_event` for the failing outcomes.
pub fn expect_event<E: PartialEq>(log: &[E], e: &E)
    requires
        obeys_concrete_eq::<E>(),
        log@.len() > 0,
        log@.last() == *e,
{
    proof {
        reveal(obeys_concrete_eq);
    }
    let last = last_event(log);
    let same = *last == *e;
    assert(same);
}

/// Asserts that `e` was emitted at some point. Where it was not, the check
/// fails, and the caller may not call it: see `check_event_emitted`.
pub fn event_exists<E: PartialEq>(log: &[E], e: &E)
    requires
        obeys_concrete_eq::<E>(),
        log@.contains(*e),
{
    let r = check_event_emitted(log, e);
    assert(r is Ok);
}

} // verus!
