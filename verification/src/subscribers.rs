//! The streams to which an element subscribes.

use crate::text::decimal;
use crate::text::decimal_text;
use crate::text::join2;
use crate::text::same;
use crate::text::texts;
use vstd::prelude::*;

verus! {

/// The identifiers of the streams to which an element subscribes, each of them once.
#[derive(Debug)]
pub struct Subscribers {
    ids: Vec<String>,
}

impl View for Subscribers {
    type V = Set<Seq<char>>;

    closed spec fn view(&self) -> Set<Seq<char>> {
        texts(self.ids@).to_set()
    }
}

impl Subscribers {
    /// No stream is listed twice.
    pub closed spec fn wf(&self) -> bool {
        texts(self.ids@).no_duplicates()
    }

    /// No streams.
    pub fn new() -> (subscribers: Subscribers)
        ensures
            subscribers.wf(),
            subscribers@ == Set::<Seq<char>>::empty(),
    {
        let subscribers = Subscribers { ids: Vec::new() };
        assert(subscribers@ =~= Set::<Seq<char>>::empty());
        subscribers
    }

    /// Where a stream is listed, if it is.
    fn position(&self, id: &str) -> (position: Option<usize>)
        ensures
            match position {
                Some(i) => i < self.ids@.len() && self.ids@[i as int]@ == id@,
                None => !self@.contains(id@),
            },
    {
        let mut i: usize = 0;
        while i < self.ids.len()
            invariant
                i <= self.ids@.len(),
                forall|k: int| 0 <= k < i ==> (#[trigger] self.ids@[k])@ != id@,
            decreases self.ids@.len() - i,
        {
            if same(self.ids[i].as_str(), id) {
                return Some(i);
            }
            i += 1;
        }
        assert(!texts(self.ids@).contains(id@)) by {
            if texts(self.ids@).contains(id@) {
                let k = choose|k: int|
                    0 <= k < texts(self.ids@).len() && #[trigger] texts(self.ids@)[k] == id@;
                assert(self.ids@[k]@ == id@);
            }
        }
        None
    }

    /// Whether there are no streams.
    pub fn is_empty(&self) -> (empty: bool)
        ensures
            empty == (self@ == Set::<Seq<char>>::empty()),
    {
        let empty = self.ids.len() == 0;
        proof {
            if empty {
                assert(self@ =~= Set::<Seq<char>>::empty());
            } else {
                assert(texts(self.ids@)[0] == self.ids@[0]@);
                assert(self@.contains(self.ids@[0]@));
            }
        }
        empty
    }

    /// Adds a stream. Nothing changes, if it is there.
    pub fn insert(&mut self, id: String)
        requires
            old(self).wf(),
        ensures
            final(self).wf(),
            final(self)@ == old(self)@.insert(id@),
    {
        let ghost before = texts(self.ids@);
        let ghost text = id@;
        match self.position(id.as_str()) {
            Some(i) => {
                assert(before[i as int] == text);
                assert(self@ =~= self@.insert(text));
            },
            None => {
                self.ids.push(id);
                let ghost after = texts(self.ids@);
                assert(after =~= before.push(text));
                assert(after.to_set() =~= before.to_set().insert(text)) by {
                    assert forall|x: Seq<char>| before.to_set().insert(text).contains(
                        x,
                    ) implies after.to_set().contains(x) by {
                        if x == text {
                            assert(after[before.len() as int] == text);
                        } else {
                            let k = choose|k: int| 0 <= k < before.len() && before[k] == x;
                            assert(after[k] == x);
                        }
                    }
                }
                assert(after.no_duplicates()) by {
                    assert forall|i: int, j: int|
                        0 <= i < after.len() && 0 <= j < after.len() && i != j implies after[i]
                        != after[j] by {
                        if i < before.len() && j < before.len() {
                            assert(before[i] != before[j]);
                        } else if i < before.len() {
                            assert(before.contains(before[i]));
                        } else {
                            assert(before.contains(before[j]));
                        }
                    }
                }
            },
        }
    }

    /// Takes a stream out. Returns whether it was there.
    pub fn remove(&mut self, id: &str) -> (found: bool)
        requires
            old(self).wf(),
        ensures
            found == old(self)@.contains(id@),
            final(self).wf(),
            final(self)@ == old(self)@.remove(id@),
    {
        let ghost before = texts(self.ids@);
        match self.position(id) {
            Some(i) => {
                assert(before[i as int] == id@);
                assert(before.contains(id@));
                self.ids.remove(i);
                let ghost at = i as int;
                let ghost after = texts(self.ids@);
                assert(after =~= before.remove(at));
                assert forall|k: int| 0 <= k < after.len() implies #[trigger] after[k] == before[if k
                    < at {
                    k
                } else {
                    k + 1
                }] by {}
                assert(after.to_set() =~= before.to_set().remove(id@)) by {
                    assert forall|x: Seq<char>| after.to_set().contains(
                        x,
                    ) implies before.to_set().remove(id@).contains(x) by {
                        let k = choose|k: int| 0 <= k < after.len() && after[k] == x;
                        let j = if k < at {
                            k
                        } else {
                            k + 1
                        };
                        assert(before[j] == x);
                        assert(before[j] != before[at]);
                    }
                    assert forall|x: Seq<char>| before.to_set().remove(id@).contains(
                        x,
                    ) implies after.to_set().contains(x) by {
                        let k = choose|k: int| 0 <= k < before.len() && before[k] == x;
                        let j = if k < at {
                            k
                        } else {
                            k - 1
                        };
                        assert(after[j] == x);
                    }
                }
                assert(after.no_duplicates());
                true
            },
            None => {
                assert(self@ =~= self@.remove(id@));
                false
            },
        }
    }

    /// Takes all streams out. Returns each of them once.
    pub fn drain(&mut self) -> (ids: Vec<String>)
        requires
            old(self).wf(),
        ensures
            texts(ids@).no_duplicates(),
            texts(ids@).to_set() == old(self)@,
            final(self).wf(),
            final(self)@ == Set::<Seq<char>>::empty(),
    {
        let mut ids: Vec<String> = Vec::new();
        std::mem::swap(&mut ids, &mut self.ids);
        assert(self@ =~= Set::<Seq<char>>::empty());
        ids
    }
}

/// The number of subscribers whose stream is known and has video. Each entry stands for one
/// subscriber: nothing if its stream is not known, else whether the stream has video.
pub open spec fn video_count(streams: Seq<Option<bool>>) -> nat {
    streams.filter(|stream: Option<bool>| stream == Some(true)).len()
}

/// The name of the pad of the next video stream.
pub open spec fn video_pad_text(streams: Seq<Option<bool>>) -> Seq<char> {
    "video_stream_"@ + decimal_text(video_count(streams))
}

/// The name of the pad of the next video stream: it counts the subscribers that have video. Each
/// entry stands for one subscriber: nothing if its stream is not known, else whether the stream
/// has video.
pub fn generate_video_pad_name(streams: &Vec<Option<bool>>) -> (name: String)
    ensures
        name@ == video_pad_text(streams@),
{
    let ghost has_video = |stream: Option<bool>| stream == Some(true);
    let mut id: usize = 0;
    let mut i: usize = 0;
    assert(streams@.take(0).filter(has_video).len() == 0) by {
        reveal(Seq::filter);
    }
    while i < streams.len()
        invariant
            i <= streams@.len(),
            id <= i,
            has_video == (|stream: Option<bool>| stream == Some(true)),
            id == streams@.take(i as int).filter(has_video).len(),
        decreases streams@.len() - i,
    {
        assert(streams@.take(i + 1).drop_last() =~= streams@.take(i as int));
        assert(streams@.take(i + 1).last() == streams@[i as int]);
        proof {
            reveal(Seq::filter);
        }
        if let Some(true) = streams[i] {
            id += 1;
        }
        i += 1;
    }
    assert(streams@.take(streams@.len() as int) =~= streams@);
    join2("video_stream_", decimal(id).as_str())
}

/// Two lists of subscribers give the next video stream the same name if and only if they have the
/// same number of video streams.
pub proof fn lemma_video_pad_names(a: Seq<Option<bool>>, b: Seq<Option<bool>>)
    ensures
        video_pad_text(a) == video_pad_text(b) <==> video_count(a) == video_count(b),
{
    if video_pad_text(a) == video_pad_text(b) {
        let prefix = "video_stream_"@;
        let at = prefix.len() as int;
        assert(video_pad_text(a).skip(at) =~= decimal_text(video_count(a)));
        assert(video_pad_text(b).skip(at) =~= decimal_text(video_count(b)));
        crate::text::lemma_decimal_text_injective(video_count(a), video_count(b));
    }
}

/// As long as no stream goes away or changes, the name that a stream with video gets is not given
/// again: `streams` lists the streams in the order of their arrival, and a stream that comes
/// later than the stream `i` finds all streams before it.
pub proof fn lemma_video_pad_names_are_new(streams: Seq<Option<bool>>, i: int, j: int)
    requires
        0 <= i < j <= streams.len(),
        streams[i] == Some(true),
    ensures
        video_pad_text(streams.take(i)) != video_pad_text(streams.take(j)),
{
    lemma_video_count_grows(streams, i + 1, j);
    assert(streams.take(i + 1).drop_last() =~= streams.take(i));
    reveal(Seq::filter);
    lemma_video_pad_names(streams.take(i), streams.take(j));
}

/// More subscribers do not have fewer video streams.
proof fn lemma_video_count_grows(streams: Seq<Option<bool>>, i: int, j: int)
    requires
        0 <= i <= j <= streams.len(),
    ensures
        video_count(streams.take(i)) <= video_count(streams.take(j)),
    decreases j - i,
{
    if i < j {
        lemma_video_count_grows(streams, i, j - 1);
        assert(streams.take(j).drop_last() =~= streams.take(j - 1));
        reveal(Seq::filter);
    }
}

} // verus!
