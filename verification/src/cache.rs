//! The memo table of one child: what that child answered to the queries of the
//! solver.

use crate::geometry::Size;
use crate::sizing::AvailableSize;
use crate::sizing::KnownDimensions;
use crate::sizing::RunMode;
use vstd::prelude::*;

verus! {

/// The number of answers to size-only queries that a cache holds at most. The
/// solver asks a child under a handful of hypotheses in a pass; this is room
/// for all of them and a bound on what a child's record can grow to.
pub const CAPACITY: usize = 16;

/// What identifies a query: the sides the solver fixed, the space it offered,
/// and whether it asked for a size alone or for a full layout. Two queries are
/// the same only where all of it is the same, bit for bit.
#[derive(Clone, Copy, Debug, PartialEq, Eq, Structural)]
pub struct CacheKey {
    pub known_dimensions: KnownDimensions,
    pub available_space: AvailableSize,
    pub run_mode: RunMode,
}

/// One remembered answer: the query and the size that was given to it.
#[derive(Clone, Copy, Debug, PartialEq, Eq, Structural)]
pub struct Answer {
    pub key: CacheKey,
    pub size: Size,
}

/// The answers of one child, by query.
///
/// It keeps the answer to the last full-layout query, and apart from it the
/// answers to up to [`CAPACITY`] size-only queries. An answer to a size-only
/// query is never given to a full-layout query, nor the other way round. When
/// a size-only query comes that has no answer yet and there is no room left,
/// the answer that has been kept longest makes room.
#[derive(Debug)]
pub struct Cache {
    sizes: Vec<Answer>,
    layout: Option<Answer>,
}

/// What a [`Cache`] holds.
#[verifier::ext_equal]
pub struct CacheView {
    /// The answers to size-only queries, the one kept longest first.
    pub sizes: Seq<Answer>,
    /// The answer to the last full-layout query.
    pub layout: Option<Answer>,
}

/// The answer to `key` among `answers`, the latest where there are several.
pub open spec fn latest(answers: Seq<Answer>, key: CacheKey) -> Option<Size>
    decreases answers.len(),
{
    if answers.len() == 0 {
        None
    } else if answers.last().key == key {
        Some(answers.last().size)
    } else {
        latest(answers.drop_last(), key)
    }
}

/// `answers` with `size` in the place of the latest answer to `key`.
pub open spec fn replaced(answers: Seq<Answer>, key: CacheKey, size: Size) -> Seq<Answer>
    decreases answers.len(),
{
    if answers.len() == 0 {
        answers
    } else if answers.last().key == key {
        answers.drop_last().push(Answer { key, size })
    } else {
        replaced(answers.drop_last(), key, size).push(answers.last())
    }
}

/// `answers` after `size` was remembered as the answer to `key`: in the place
/// of the answer that `key` had, or else behind all others, the first of which
/// goes where there is no room left.
pub open spec fn remembered(answers: Seq<Answer>, key: CacheKey, size: Size) -> Seq<Answer> {
    if latest(answers, key) is Some {
        replaced(answers, key, size)
    } else if answers.len() < CAPACITY {
        answers.push(Answer { key, size })
    } else {
        answers.skip(1).push(Answer { key, size })
    }
}

impl View for Cache {
    type V = CacheView;

    closed spec fn view(&self) -> CacheView {
        CacheView { sizes: self.sizes@, layout: self.layout }
    }
}

impl CacheKey {
    /// The key of a query.
    pub open spec fn of(
        known_dimensions: KnownDimensions,
        available_space: AvailableSize,
        run_mode: RunMode,
    ) -> CacheKey {
        CacheKey { known_dimensions, available_space, run_mode }
    }
}

impl CacheView {
    /// No answer at all.
    pub open spec fn empty() -> CacheView {
        CacheView { sizes: Seq::empty(), layout: None }
    }

    /// The answer to a query, if there is one: to a full-layout query the
    /// answer to the last such query where it was this very query, to a
    /// size-only query the answer kept for it.
    pub open spec fn get(self, key: CacheKey) -> Option<Size> {
        match key.run_mode {
            RunMode::PerformLayout => match self.layout {
                Some(answer) => if answer.key == key {
                    Some(answer.size)
                } else {
                    None
                },
                None => None,
            },
            RunMode::ComputeSize => latest(self.sizes, key),
        }
    }

    /// The answers after `size` was remembered as the answer to `key`.
    pub open spec fn store(self, key: CacheKey, size: Size) -> CacheView {
        match key.run_mode {
            RunMode::PerformLayout => CacheView { layout: Some(Answer { key, size }), ..self },
            RunMode::ComputeSize => CacheView { sizes: remembered(self.sizes, key, size), ..self },
        }
    }
}

/// Whether no answer from `from` on answers `key`.
spec fn absent_from(answers: Seq<Answer>, from: int, key: CacheKey) -> bool {
    forall|j: int| from <= j < answers.len() ==> (#[trigger] answers[j]).key != key
}

impl Cache {
    /// A cache that holds no answer.
    pub fn new() -> (out: Cache)
        ensures
            out@ == CacheView::empty(),
    {
        Cache { sizes: Vec::new(), layout: None }
    }

    /// The remembered answer to a query, if there is one.
    pub fn get(
        &self,
        known_dimensions: KnownDimensions,
        available_space: AvailableSize,
        run_mode: RunMode,
    ) -> (out: Option<Size>)
        ensures
            out == self@.get(CacheKey::of(known_dimensions, available_space, run_mode)),
    {
        let key = CacheKey { known_dimensions, available_space, run_mode };
        match run_mode {
            RunMode::PerformLayout => match self.layout {
                Some(answer) => if answer.key == key {
                    Some(answer.size)
                } else {
                    None
                },
                None => None,
            },
            RunMode::ComputeSize => {
                let mut i: usize = self.sizes.len();
                while i > 0
                    invariant
                        i <= self.sizes.len(),
                        key == CacheKey::of(known_dimensions, available_space, run_mode),
                        run_mode == RunMode::ComputeSize,
                        absent_from(self.sizes@, i as int, key),
                    decreases i,
                {
                    i -= 1;
                    if self.sizes[i].key == key {
                        proof {
                            lemma_found(self.sizes@, i as int);
                        }
                        return Some(self.sizes[i].size);
                    }
                }
                proof {
                    lemma_absent(self.sizes@, key);
                }
                None
            },
        }
    }

    /// Remembers `size` as the answer to a query.
    ///
    /// An answer to a full-layout query takes the place of the answer to the
    /// full-layout query before it. An answer to a size-only query takes the
    /// place of the answer that the query had; where it had none, the answer is
    /// added, and where [`CAPACITY`] answers to size-only queries are held
    /// already, the one that has been kept longest is dropped for it.
    pub fn store(
        &mut self,
        known_dimensions: KnownDimensions,
        available_space: AvailableSize,
        run_mode: RunMode,
        size: Size,
    )
        ensures
            final(self)@ == old(self)@.store(
                CacheKey::of(known_dimensions, available_space, run_mode),
                size,
            ),
    {
        let key = CacheKey { known_dimensions, available_space, run_mode };
        match run_mode {
            RunMode::PerformLayout => {
                self.layout = Some(Answer { key, size });
            },
            RunMode::ComputeSize => {
                let ghost before = self.sizes@;
                let mut i: usize = self.sizes.len();
                while i > 0
                    invariant
                        i <= self.sizes.len(),
                        key == CacheKey::of(known_dimensions, available_space, run_mode),
                        run_mode == RunMode::ComputeSize,
                        self.sizes@ == before,
                        before == old(self).sizes@,
                        self.layout == old(self).layout,
                        absent_from(before, i as int, key),
                    decreases i,
                {
                    i -= 1;
                    if self.sizes[i].key == key {
                        self.sizes[i] = Answer { key, size };
                        proof {
                            lemma_found(before, i as int);
                            lemma_replaced(before, i as int, size);
                        }
                        return ;
                    }
                }
                proof {
                    lemma_absent(before, key);
                }
                if self.sizes.len() >= CAPACITY {
                    self.sizes.remove(0);
                    assert(self.sizes@ == before.skip(1));
                }
                self.sizes.push(Answer { key, size });
            },
        }
    }

    /// Forgets every answer.
    pub fn clear(&mut self)
        ensures
            final(self)@ == CacheView::empty(),
    {
        self.sizes = Vec::new();
        self.layout = None;
    }

    /// Whether the cache holds no answer.
    pub fn is_empty(&self) -> (out: bool)
        ensures
            out == (self@ == CacheView::empty()),
    {
        let out = self.sizes.len() == 0 && self.layout.is_none();
        proof {
            if out {
                assert(self@ =~= CacheView::empty());
            } else {
                assert(self@.sizes.len() > 0 || self@.layout is Some);
            }
        }
        out
    }

    /// The number of answers to size-only queries that the cache holds.
    pub fn size_answers(&self) -> (out: usize)
        ensures
            out == self@.sizes.len(),
    {
        self.sizes.len()
    }
}

/// The last answer to a query is the answer to it.
proof fn lemma_found(answers: Seq<Answer>, at: int)
    requires
        0 <= at < answers.len(),
        absent_from(answers, at + 1, answers[at].key),
    ensures
        latest(answers, answers[at].key) == Some(answers[at].size),
    decreases answers.len(),
{
    if at < answers.len() - 1 {
        assert(answers.last().key != answers[at].key);
        lemma_found(answers.drop_last(), at);
    }
}

/// A query that no answer is for has no answer.
proof fn lemma_absent(answers: Seq<Answer>, key: CacheKey)
    requires
        absent_from(answers, 0, key),
    ensures
        latest(answers, key) is None,
    decreases answers.len(),
{
    if answers.len() > 0 {
        assert(answers.last().key != key);
        lemma_absent(answers.drop_last(), key);
    }
}

/// Writing a new size over the last answer to a query is replacing the latest
/// answer to it.
proof fn lemma_replaced(answers: Seq<Answer>, at: int, size: Size)
    requires
        0 <= at < answers.len(),
        absent_from(answers, at + 1, answers[at].key),
    ensures
        answers.update(at, Answer { key: answers[at].key, size }) == replaced(
            answers,
            answers[at].key,
            size,
        ),
    decreases answers.len(),
{
    let key = answers[at].key;
    let after = answers.update(at, Answer { key, size });
    if at < answers.len() - 1 {
        assert(answers.last().key != key);
        lemma_replaced(answers.drop_last(), at, size);
        assert(after =~= answers.drop_last().update(at, Answer { key, size }).push(answers.last()));
    } else {
        assert(after =~= answers.drop_last().push(Answer { key, size }));
    }
}

/// The answer that is given to a query is an answer that is held.
pub proof fn lemma_latest_is_held(answers: Seq<Answer>, key: CacheKey) -> (at: int)
    requires
        latest(answers, key) is Some,
    ensures
        0 <= at < answers.len(),
        answers[at] == (Answer { key, size: latest(answers, key)->0 }),
    decreases answers.len(),
{
    if answers.last().key == key {
        answers.len() - 1
    } else {
        lemma_latest_is_held(answers.drop_last(), key)
    }
}

/// After an answer was put in the place of another, each answer that is held
/// is the new one or was held before.
pub proof fn lemma_replaced_holds(answers: Seq<Answer>, key: CacheKey, size: Size, at: int)
    requires
        0 <= at < replaced(answers, key, size).len(),
    ensures
        replaced(answers, key, size)[at] == (Answer { key, size }) || exists|from: int|
            0 <= from < answers.len() && #[trigger] answers[from] == replaced(answers, key, size)[at],
    decreases answers.len(),
{
    if answers.len() > 0 {
        if answers.last().key == key {
            if at < answers.len() - 1 {
                assert(answers[at] == replaced(answers, key, size)[at]);
            }
        } else {
            let inner = replaced(answers.drop_last(), key, size);
            lemma_replaced_answers_count(answers.drop_last(), key, size);
            if at < inner.len() {
                lemma_replaced_holds(answers.drop_last(), key, size, at);
                if inner[at] != (Answer { key, size }) {
                    let from = choose|from: int|
                        0 <= from < answers.drop_last().len() && #[trigger] answers.drop_last()[from]
                            == inner[at];
                    assert(answers[from] == replaced(answers, key, size)[at]);
                }
            } else {
                assert(answers[answers.len() - 1] == replaced(answers, key, size)[at]);
            }
        }
    }
}

/// Replacing an answer keeps the number of answers.
proof fn lemma_replaced_answers_count(answers: Seq<Answer>, key: CacheKey, size: Size)
    ensures
        replaced(answers, key, size).len() == answers.len(),
    decreases answers.len(),
{
    if answers.len() > 0 && answers.last().key != key {
        lemma_replaced_answers_count(answers.drop_last(), key, size);
    }
}

/// After an answer was remembered, each answer that is held is the new one or
/// was held before: remembering makes up no answer.
pub proof fn lemma_remembered_holds(answers: Seq<Answer>, key: CacheKey, size: Size, at: int)
    requires
        0 <= at < remembered(answers, key, size).len(),
    ensures
        remembered(answers, key, size)[at] == (Answer { key, size }) || exists|from: int|
            0 <= from < answers.len() && #[trigger] answers[from] == remembered(
                answers,
                key,
                size,
            )[at],
{
    if latest(answers, key) is Some {
        lemma_replaced_holds(answers, key, size, at);
    } else if answers.len() < CAPACITY {
        if at < answers.len() {
            assert(answers[at] == remembered(answers, key, size)[at]);
        }
    } else {
        if at < answers.len() - 1 {
            assert(answers[at + 1] == remembered(answers, key, size)[at]);
        }
    }
}

/// Replacing the answer to a query keeps the number of answers, gives the
/// query its new answer, and leaves the answer to every other query.
pub proof fn lemma_replaced_answers(answers: Seq<Answer>, key: CacheKey, size: Size, other: CacheKey)
    requires
        latest(answers, key) is Some,
    ensures
        replaced(answers, key, size).len() == answers.len(),
        latest(replaced(answers, key, size), key) == Some(size),
        other != key ==> latest(replaced(answers, key, size), other) == latest(answers, other),
    decreases answers.len(),
{
    if answers.len() > 0 && answers.last().key != key {
        lemma_replaced_answers(answers.drop_last(), key, size, other);
        let inner = replaced(answers.drop_last(), key, size);
        assert(inner.push(answers.last()).drop_last() == inner);
    } else if answers.len() > 0 {
        assert(answers.drop_last().push(Answer { key, size }).drop_last() == answers.drop_last());
    }
}

/// Dropping the answer that was kept longest takes the answer from at most one
/// query: every query has the answer it had, or none.
pub proof fn lemma_dropped_first(answers: Seq<Answer>, other: CacheKey)
    requires
        answers.len() > 0,
    ensures
        latest(answers.skip(1), other) == latest(answers, other) || latest(
            answers.skip(1),
            other,
        ) is None,
        answers[0].key != other ==> latest(answers.skip(1), other) == latest(answers, other),
    decreases answers.len(),
{
    if answers.len() > 1 {
        assert(answers.skip(1).drop_last() == answers.drop_last().skip(1));
        assert(answers.skip(1).last() == answers.last());
        assert(answers.drop_last()[0] == answers[0]);
        if answers.last().key != other {
            lemma_dropped_first(answers.drop_last(), other);
        }
    } else {
        assert(answers.last() == answers[0]);
        assert(latest(answers.drop_last(), other) is None);
        assert(latest(answers.skip(1), other) is None);
    }
}

/// What remembering an answer does to the answers that are given.
///
/// The query gets the answer that was remembered. A query of the other kind
/// has the answer it had. A query of the same kind has the answer it had or
/// has lost it, and it has the answer it had in any case where the query that
/// was answered had an answer before or, for a size-only query, there was room
/// left.
pub proof fn lemma_store(view: CacheView, key: CacheKey, size: Size, other: CacheKey)
    ensures
        view.store(key, size).get(key) == Some(size),
        other.run_mode != key.run_mode ==> view.store(key, size).get(other) == view.get(other),
        other != key ==> view.store(key, size).get(other) == view.get(other) || view.store(
            key,
            size,
        ).get(other) is None,
        other != key && key.run_mode == RunMode::ComputeSize && (view.get(key) is Some
            || view.sizes.len() < CAPACITY) ==> view.store(key, size).get(other) == view.get(other),
{
    if key.run_mode == RunMode::ComputeSize {
        let answer = Answer { key, size };
        if latest(view.sizes, key) is Some {
            lemma_replaced_answers(view.sizes, key, size, other);
        } else if view.sizes.len() < CAPACITY {
            assert(view.sizes.push(answer).drop_last() == view.sizes);
        } else {
            lemma_dropped_first(view.sizes, other);
            assert(view.sizes.skip(1).push(answer).drop_last() == view.sizes.skip(1));
        }
    }
}

/// A cache never holds more than [`CAPACITY`] answers to size-only queries,
/// and one answer to a full-layout query: remembering an answer does not take
/// the number of size-only answers beyond the capacity.
pub proof fn lemma_store_keeps_capacity(view: CacheView, key: CacheKey, size: Size)
    requires
        view.sizes.len() <= CAPACITY,
    ensures
        view.store(key, size).sizes.len() <= CAPACITY,
{
    if key.run_mode == RunMode::ComputeSize && latest(view.sizes, key) is Some {
        lemma_replaced_answers(view.sizes, key, size, key);
    }
}

} // verus!
