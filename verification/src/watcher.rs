use vstd::prelude::*;

use crate::event::WatchEvent;
use crate::paths::{parent_of, parent_path};
use std::collections::VecDeque;

verus! {

/// Whether at least one of an event's affected paths stands, exactly, in
/// the filter. Matching is exact character-for-character path equality.
pub open spec fn some_path_in_filter(filter: Seq<Seq<char>>, paths: Seq<Seq<char>>) -> bool {
    exists|i: int| 0 <= i < paths.len() && filter.contains(paths[i])
}

/// Whether the filter admits an event: an empty filter admits every event,
/// a non-empty one only an event touching at least one filtered path.
pub open spec fn admits(filter: Seq<Seq<char>>, event: WatchEvent) -> bool {
    filter.len() == 0 || some_path_in_filter(filter, event.paths_view())
}

/// Whether a raw delivery is admitted. A delivery that carries an error
/// instead of an event (`None`) is discarded silently, never admitted.
pub open spec fn raw_admitted(filter: Seq<Seq<char>>, raw: Option<WatchEvent>) -> bool {
    match raw {
        Option::Some(event) => admits(filter, event),
        Option::None => false,
    }
}

/// The queue after one raw delivery: grown at the back by an admitted
/// event, unchanged by a discarded one.
pub open spec fn queue_after_delivery(
    queue: Seq<WatchEvent>,
    filter: Seq<Seq<char>>,
    raw: Option<WatchEvent>,
) -> Seq<WatchEvent> {
    if raw_admitted(filter, raw) {
        queue.push(raw->0)
    } else {
        queue
    }
}

/// What one poll returns: the oldest queued event, or nothing at all.
pub open spec fn poll_result(queue: Seq<WatchEvent>) -> Option<WatchEvent> {
    if queue.len() == 0 {
        Option::None
    } else {
        Option::Some(queue[0])
    }
}

/// The queue after one poll: shorter by its oldest event, or still empty.
pub open spec fn queue_after_poll(queue: Seq<WatchEvent>) -> Seq<WatchEvent> {
    if queue.len() == 0 {
        queue
    } else {
        queue.drop_first()
    }
}

/// What a registration asks of the OS layer: one watch subscription on
/// `target`, over the whole subtree or over the directory entry alone.
pub struct WatchRequest {
    /// The path to subscribe to.
    pub target: String,
    /// Whether the subscription covers everything under `target` as well.
    pub recursive: bool,
}

/// The subscription a whole-subtree watch asks for: the path itself,
/// recursively.
pub open spec fn subtree_request(path: Seq<char>) -> (Seq<char>, bool) {
    (path, true)
}

/// The subscription a filename watch asks for: the parent directory,
/// non-recursively; for a path with no parent, the whole-subtree request.
pub open spec fn filename_request(path: Seq<char>) -> (Seq<char>, bool) {
    match parent_path(path) {
        Option::Some(parent) => (parent, false),
        Option::None => subtree_request(path),
    }
}

/// The filter after a whole-subtree watch: exactly as it was. A `watch`
/// registration never clears nor shrinks the filter.
pub open spec fn filter_after_subtree_watch(filter: Seq<Seq<char>>) -> Seq<Seq<char>> {
    filter
}

/// The filter after a filename watch: grown at the back by the path when
/// the path has a parent directory, unchanged otherwise (the fallback).
/// The filter only ever grows: no registration retracts an entry.
pub open spec fn filter_after_filename_watch(
    filter: Seq<Seq<char>>,
    path: Seq<char>,
) -> Seq<Seq<char>> {
    match parent_path(path) {
        Option::Some(_) => filter.push(path),
        Option::None => filter,
    }
}

/// The watcher engine: the admission filter and the FIFO queue of admitted
/// events.
///
/// The OS-facing side hands every raw delivery to [`Watcher::handle_raw_event`]
/// and owes one readiness signal exactly when that returns `true`; the
/// consumer side drains with [`Watcher::poll_event`], which never blocks.
/// Registration calls update the filter and return the [`WatchRequest`] to
/// perform against the OS layer; the subscription handle itself, and the
/// mutual exclusion between the two sides, belong to the hosting layer.
pub struct Watcher {
    filter: Vec<String>,
    queue: VecDeque<WatchEvent>,
}

impl Watcher {
    /// The filter's entries, each as its characters, in insertion order.
    pub closed spec fn filter_model(&self) -> Seq<Seq<char>> {
        self.filter.deep_view()
    }

    /// The queued events, oldest first.
    pub closed spec fn queue_model(&self) -> Seq<WatchEvent> {
        self.queue@
    }

    /// A fresh engine: nothing queued, nothing filtered (every event is
    /// admitted until a filename watch narrows admission down).
    pub fn new() -> (w: Watcher)
        ensures
            w.filter_model() == Seq::<Seq<char>>::empty(),
            w.queue_model() == Seq::<WatchEvent>::empty(),
    {
        let w = Watcher { filter: Vec::new(), queue: VecDeque::new() };
        proof {
            assert(w.filter_model() =~= Seq::<Seq<char>>::empty());
        }
        w
    }

    /// Whether `path` stands, exactly, in the filter.
    fn filter_holds_path(filter: &Vec<String>, path: &String) -> (r: bool)
        ensures
            r == filter.deep_view().contains(path@),
    {
        let n: usize = filter.len();
        for j in 0..n
            invariant
                n == filter.len(),
                forall|k: int| 0 <= k < j ==> filter.deep_view()[k] != path@,
        {
            if filter[j].eq(path) {
                assert(filter.deep_view()[j as int] == path@);
                return true;
            }
        }
        assert(!filter.deep_view().contains(path@));
        false
    }

    /// Whether at least one of the event's affected paths stands in the
    /// filter.
    fn event_touches_filter(filter: &Vec<String>, event: &WatchEvent) -> (r: bool)
        ensures
            r == some_path_in_filter(filter.deep_view(), event.paths_view()),
    {
        let n: usize = event.paths.len();
        for i in 0..n
            invariant
                n == event.paths.len(),
                forall|k: int| 0 <= k < i ==> !filter.deep_view().contains(#[trigger] event.paths_view()[k]),
        {
            if Self::filter_holds_path(filter, &event.paths[i]) {
                assert(filter.deep_view().contains(event.paths_view()[i as int]));
                return true;
            }
        }
        false
    }

    /// Take one raw delivery from the OS layer: discard a delivery error
    /// silently, apply the admission filter, and append an admitted event at
    /// the back of the queue.
    ///
    /// Returns whether the event was admitted: exactly then the caller owes
    /// one readiness signal to whoever waits for work, and none otherwise.
    pub fn handle_raw_event(&mut self, raw: Option<WatchEvent>) -> (admitted: bool)
        ensures
            admitted == raw_admitted(old(self).filter_model(), raw),
            final(self).filter_model() == old(self).filter_model(),
            final(self).queue_model() == queue_after_delivery(
                old(self).queue_model(),
                old(self).filter_model(),
                raw,
            ),
    {
        match raw {
            None => false,
            Some(event) => {
                let admitted = if self.filter.len() > 0 {
                    Self::event_touches_filter(&self.filter, &event)
                } else {
                    true
                };
                if admitted {
                    self.queue.push_back(event);
                }
                admitted
            },
        }
    }

    /// Drain the oldest unconsumed event, if one is queued. Never blocks
    /// and never fails: on an empty queue it returns nothing at once.
    pub fn poll_event(&mut self) -> (r: Option<WatchEvent>)
        ensures
            r == poll_result(old(self).queue_model()),
            final(self).queue_model() == queue_after_poll(old(self).queue_model()),
            final(self).filter_model() == old(self).filter_model(),
    {
        self.queue.pop_front()
    }

    /// How many admitted events wait unconsumed.
    pub fn queue_size(&self) -> (n: usize)
        ensures
            n == self.queue_model().len(),
    {
        self.queue.len()
    }

    /// How many entries the admission filter holds.
    pub fn path_size(&self) -> (n: usize)
        ensures
            n == self.filter_model().len(),
    {
        self.filter.len()
    }

    /// Plan a whole-subtree watch: ask the OS layer for `path`, recursive,
    /// so that a change anywhere under it is reported. Registration only
    /// plans; it reads the watcher, so neither the filter nor the queue
    /// moves, and an earlier filename watch keeps gating admission.
    pub fn watch_request(&self, path: &str) -> (r: WatchRequest)
        ensures
            (r.target@, r.recursive) == subtree_request(path@),
    {
        WatchRequest { target: path.to_owned(), recursive: true }
    }

    /// Register a single filename: add `path` to the admission filter and
    /// plan a non-recursive subscription of its parent directory (an OS
    /// layer typically cannot watch one file directly; watching its
    /// containing directory is the portable substitute). A path with no
    /// parent falls back to the whole-subtree plan and leaves the filter
    /// alone. The filter entry, once added, is permanent.
    pub fn watch_filename_register(&mut self, path: &str) -> (r: WatchRequest)
        ensures
            (r.target@, r.recursive) == filename_request(path@),
            final(self).filter_model() == filter_after_filename_watch(
                old(self).filter_model(),
                path@,
            ),
            final(self).queue_model() == old(self).queue_model(),
    {
        match parent_of(path) {
            Some(parent) => {
                self.filter.push(path.to_owned());
                proof {
                    assert(self.filter.deep_view() =~= old(self).filter.deep_view().push(path@));
                }
                WatchRequest { target: parent, recursive: false }
            },
            None => self.watch_request(path),
        }
    }
}

} // verus!
