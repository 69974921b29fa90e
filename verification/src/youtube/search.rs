//! Turning YouTube Music search answers into the result list: mapping each
//! track, interleaving the video and song tabs, and dropping repeats.
use vstd::prelude::*;
use crate::text::{chars_equal, chars_of, join_seqs, push_joined, push_str, views};
use crate::paths::{join_path, path_join};
use crate::platform::TargetOs;
use crate::pipeline::job::{folder_name, output_folder_name, JobSource};

verus! {

/// A single YouTube Music search result.
#[derive(Clone, Debug)]
pub struct SearchResult {
    pub video_id: String,
    pub title: String,
    pub channel: String,
    pub duration_secs: u32,
    pub thumbnail_url: String,
}

/// What a search answer says of one track or video: its id, name, artist
/// names, cover image URLs (best first) and duration.
#[derive(Clone, Debug)]
pub struct TrackInfo {
    pub id: String,
    pub name: String,
    pub artists: Vec<String>,
    pub covers: Vec<String>,
    pub duration: Option<u32>,
}

/// The thumbnail of a track: its first cover, or YouTube's standard
/// thumbnail URL for its id.
pub open spec fn thumbnail_of(t: TrackInfo) -> Seq<char> {
    if t.covers@.len() > 0 {
        t.covers@[0]@
    } else {
        "https://i.ytimg.com/vi/"@ + t.id@ + "/hqdefault.jpg"@
    }
}

/// Whether `r` is the search result for track `t`: same id and title, the
/// artists joined with `, ` as channel, the duration (0 when unknown) and
/// the thumbnail.
pub open spec fn is_result_of(t: TrackInfo, r: SearchResult) -> bool {
    &&& r.video_id == t.id
    &&& r.title == t.name
    &&& r.channel@ == join_seqs(t.artists@.map_values(|a: String| a@), ", "@)
    &&& r.duration_secs == (match t.duration {
        Some(d) => d,
        None => 0,
    })
    &&& r.thumbnail_url@ == thumbnail_of(t)
}

/// The search result of a track.
pub fn map_track_item(t: &TrackInfo) -> (r: SearchResult)
    ensures
        is_result_of(*t, r),
{
    let mut artists: Vec<Vec<char>> = Vec::new();
    let mut i: usize = 0;
    while i < t.artists.len()
        invariant
            i <= t.artists.len(),
            views(artists@) == t.artists@.take(i as int).map_values(|a: String| a@),
        decreases t.artists.len() - i,
    {
        let ghost before = views(artists@);
        artists.push(chars_of(t.artists[i].as_str()));
        assert(views(artists@) =~= before.push(t.artists@[i as int]@));
        i = i + 1;
        assert(t.artists@.take(i as int).map_values(|a: String| a@) =~= before.push(
            t.artists@[i - 1]@,
        ));
    }
    assert(t.artists@.take(t.artists.len() as int) =~= t.artists@);
    let mut channel = String::new();
    push_joined(&mut channel, &artists, 0, artists.len(), ", ");
    assert(views(artists@).subrange(0, artists.len() as int) =~= views(artists@));
    let thumbnail_url = if t.covers.len() > 0 {
        t.covers[0].clone()
    } else {
        let mut u = String::new();
        push_str(&mut u, "https://i.ytimg.com/vi/");
        push_str(&mut u, t.id.as_str());
        push_str(&mut u, "/hqdefault.jpg");
        u
    };
    SearchResult {
        video_id: t.id.clone(),
        title: t.name.clone(),
        channel,
        duration_secs: match t.duration {
            Some(d) => d,
            None => 0,
        },
        thumbnail_url,
    }
}

/// The `k`-th element of `s` as a sequence of zero or one element.
pub open spec fn nth_or_none<A>(s: Seq<A>, k: int) -> Seq<A> {
    if 0 <= k < s.len() {
        seq![s[k]]
    } else {
        Seq::<A>::empty()
    }
}

/// The first `k` rounds of interleaving: each round takes the next video,
/// then the next song, skipping a list once it has run out.
pub open spec fn interleave_rounds<A>(videos: Seq<A>, tracks: Seq<A>, k: nat) -> Seq<A>
    decreases k,
{
    if k == 0 {
        Seq::<A>::empty()
    } else {
        interleave_rounds(videos, tracks, (k - 1) as nat) + nth_or_none(videos, k - 1)
            + nth_or_none(tracks, k - 1)
    }
}

/// Videos and songs interleaved: video, song, video, song, ...
pub open spec fn interleave<A>(videos: Seq<A>, tracks: Seq<A>) -> Seq<A> {
    interleave_rounds(
        videos,
        tracks,
        if videos.len() >= tracks.len() {
            videos.len()
        } else {
            tracks.len()
        },
    )
}

/// Whether one of `s` has id `id`.
pub open spec fn has_track_id(s: Seq<TrackInfo>, id: Seq<char>) -> bool {
    exists|j: int| 0 <= j < s.len() && s[j].id@ == id
}

/// `s` with every track whose id already occurred earlier left out.
pub open spec fn dedup_by_id(s: Seq<TrackInfo>) -> Seq<TrackInfo>
    decreases s.len(),
{
    if s.len() == 0 {
        s
    } else {
        let d = dedup_by_id(s.drop_last());
        if has_track_id(s.drop_last(), s.last().id@) {
            d
        } else {
            d.push(s.last())
        }
    }
}

/// Whether `out` holds the search results of `tracks`, in order.
pub open spec fn results_of(tracks: Seq<TrackInfo>, out: Seq<SearchResult>) -> bool {
    &&& out.len() == tracks.len()
    &&& forall|k: int| 0 <= k < tracks.len() ==> is_result_of(tracks[k], #[trigger] out[k])
}

struct Merge {
    items: Vec<SearchResult>,
    seen: Ghost<Seq<TrackInfo>>,
}

impl Merge {
    spec fn inv(&self) -> bool {
        &&& results_of(dedup_by_id(self.seen@), self.items@)
        &&& forall|id: Seq<char>|
            has_track_id(self.seen@, id) <==> exists|k: int|
                0 <= k < self.items@.len() && (#[trigger] self.items@[k]).video_id@ == id
    }

    fn consider(&mut self, t: &TrackInfo)
        requires
            old(self).inv(),
        ensures
            final(self).inv(),
            final(self).seen@ == old(self).seen@.push(*t),
    {
        let ghost before = self.seen@;
        let ghost s = before.push(*t);
        assert(s.drop_last() =~= before);
        assert(s.last() == *t);
        let found = find_result_with_id(&self.items, t.id.as_str());
        match found {
            Some(k) => {
                assert(has_track_id(before, t.id@));
                assert(dedup_by_id(s) == dedup_by_id(before));
                self.seen = Ghost(s);
                assert forall|x: Seq<char>| has_track_id(s, x) <==> exists|j: int|
                    0 <= j < self.items@.len() && (#[trigger] self.items@[j]).video_id@ == x by {
                    if has_track_id(s, x) {
                        let j = choose|j: int| 0 <= j < s.len() && s[j].id@ == x;
                        if j < before.len() {
                            assert(before[j].id@ == x);
                            assert(has_track_id(before, x));
                        } else {
                            assert(self.items@[k as int].video_id@ == x);
                        }
                    }
                    if exists|j: int|
                        0 <= j < self.items@.len() && (#[trigger] self.items@[j]).video_id@ == x {
                        assert(has_track_id(before, x));
                        let j = choose|j: int| 0 <= j < before.len() && before[j].id@ == x;
                        assert(s[j].id@ == x);
                    }
                }
            },
            None => {
                assert(!has_track_id(before, t.id@));
                assert(dedup_by_id(s) == dedup_by_id(before).push(*t));
                let r = map_track_item(t);
                let ghost items_before = self.items@;
                self.items.push(r);
                self.seen = Ghost(s);
                assert forall|q: int| 0 <= q < dedup_by_id(s).len() implies is_result_of(
                    dedup_by_id(s)[q],
                    #[trigger] self.items@[q],
                ) by {
                    if q < items_before.len() {
                        assert(self.items@[q] == items_before[q]);
                    }
                }
                assert forall|x: Seq<char>| has_track_id(s, x) <==> exists|j: int|
                    0 <= j < self.items@.len() && (#[trigger] self.items@[j]).video_id@ == x by {
                    if has_track_id(s, x) {
                        let j = choose|j: int| 0 <= j < s.len() && s[j].id@ == x;
                        if j < before.len() {
                            assert(before[j].id@ == x);
                            assert(has_track_id(before, x));
                            let q = choose|q: int|
                                0 <= q < items_before.len() && (
                                #[trigger] items_before[q]).video_id@ == x;
                            assert(self.items@[q] == items_before[q]);
                        } else {
                            assert(self.items@[items_before.len() as int].video_id@ == x);
                        }
                    }
                    if exists|j: int|
                        0 <= j < self.items@.len() && (#[trigger] self.items@[j]).video_id@ == x {
                        let j = choose|j: int|
                            0 <= j < self.items@.len() && (#[trigger] self.items@[j]).video_id@
                                == x;
                        if j < items_before.len() {
                            assert(items_before[j].video_id@ == x);
                            assert(has_track_id(before, x));
                            let i = choose|i: int| 0 <= i < before.len() && before[i].id@ == x;
                            assert(s[i].id@ == x);
                        } else {
                            assert(s[before.len() as int].id@ == x);
                        }
                    }
                }
            },
        }
    }
}

/// The index of a result with video id `id`, if any.
fn find_result_with_id(items: &Vec<SearchResult>, id: &str) -> (r: Option<usize>)
    ensures
        match r {
            Some(k) => k < items@.len() && items@[k as int].video_id@ == id@,
            None => forall|j: int|
                0 <= j < items@.len() ==> (#[trigger] items@[j]).video_id@ != id@,
        },
{
    let target = chars_of(id);
    let mut k: usize = 0;
    while k < items.len()
        invariant
            k <= items.len(),
            target@ == id@,
            forall|j: int| 0 <= j < k ==> (#[trigger] items@[j]).video_id@ != id@,
        decreases items.len() - k,
    {
        if chars_equal(&chars_of(items[k].video_id.as_str()), &target) {
            return Some(k);
        }
        k = k + 1;
    }
    None
}

/// The search result list: videos and songs interleaved (video first in
/// each round), each id kept at its first occurrence only, each mapped to
/// a result.
pub fn interleave_results(videos: &Vec<TrackInfo>, tracks: &Vec<TrackInfo>) -> (r: Vec<SearchResult>)
    ensures
        results_of(dedup_by_id(interleave(videos@, tracks@)), r@),
{
    let mut m = Merge { items: Vec::new(), seen: Ghost(Seq::<TrackInfo>::empty()) };
    let rounds = if videos.len() >= tracks.len() {
        videos.len()
    } else {
        tracks.len()
    };
    let mut k: usize = 0;
    while k < rounds
        invariant
            k <= rounds,
            rounds == (if videos@.len() >= tracks@.len() {
                videos@.len()
            } else {
                tracks@.len()
            }),
            m.inv(),
            m.seen@ == interleave_rounds(videos@, tracks@, k as nat),
        decreases rounds - k,
    {
        let ghost before = m.seen@;
        if k < videos.len() {
            m.consider(&videos[k]);
        }
        let ghost mid = m.seen@;
        assert(mid =~= before + nth_or_none(videos@, k as int));
        if k < tracks.len() {
            m.consider(&tracks[k]);
        }
        assert(m.seen@ =~= before + nth_or_none(videos@, k as int) + nth_or_none(
            tracks@,
            k as int,
        ));
        k = k + 1;
    }
    m.items
}

/// The result list from the song and video tabs of a search, `None` when
/// both tabs failed; a failed tab counts as empty.
pub fn merge_search_tabs(tracks: Option<Vec<TrackInfo>>, videos: Option<Vec<TrackInfo>>) -> (r: Option<Vec<SearchResult>>)
    ensures
        (tracks is None && videos is None) <==> r is None,
        r matches Some(out) ==> results_of(
            dedup_by_id(
                interleave(
                    match videos {
                        Some(v) => v@,
                        None => Seq::<TrackInfo>::empty(),
                    },
                    match tracks {
                        Some(t) => t@,
                        None => Seq::<TrackInfo>::empty(),
                    },
                ),
            ),
            out@,
        ),
{
    if tracks.is_none() && videos.is_none() {
        return None;
    }
    let t = match tracks {
        Some(t) => t,
        None => Vec::new(),
    };
    let v = match videos {
        Some(v) => v,
        None => Vec::new(),
    };
    Some(interleave_results(&v, &t))
}

/// Dropping repeats keeps exactly one track per id: no two kept tracks
/// share an id, and every id of the input is kept.
pub proof fn dedup_keeps_each_id_once(s: Seq<TrackInfo>)
    ensures
        forall|i: int, j: int|
            0 <= i < j < dedup_by_id(s).len() ==> (#[trigger] dedup_by_id(s)[i]).id@ != (
            #[trigger] dedup_by_id(s)[j]).id@,
        forall|id: Seq<char>| has_track_id(dedup_by_id(s), id) <==> has_track_id(s, id),
    decreases s.len(),
{
    if s.len() > 0 {
        let p = s.drop_last();
        dedup_keeps_each_id_once(p);
        let d = dedup_by_id(p);
        let x = s.last();
        assert forall|id: Seq<char>| has_track_id(s, id) <==> (has_track_id(p, id) || x.id@ == id) by {
            if has_track_id(s, id) {
                let j = choose|j: int| 0 <= j < s.len() && s[j].id@ == id;
                if j < p.len() {
                    assert(p[j].id@ == id);
                }
            }
            if has_track_id(p, id) {
                let j = choose|j: int| 0 <= j < p.len() && p[j].id@ == id;
                assert(s[j].id@ == id);
            }
            if x.id@ == id {
                assert(s[s.len() - 1].id@ == id);
            }
        }
        if !has_track_id(p, x.id@) {
            let e = d.push(x);
            assert forall|id: Seq<char>| has_track_id(e, id) <==> (has_track_id(d, id) || x.id@ == id) by {
                if has_track_id(e, id) {
                    let j = choose|j: int| 0 <= j < e.len() && e[j].id@ == id;
                    if j < d.len() {
                        assert(d[j].id@ == id);
                    }
                }
                if has_track_id(d, id) {
                    let j = choose|j: int| 0 <= j < d.len() && d[j].id@ == id;
                    assert(e[j].id@ == id);
                }
                if x.id@ == id {
                    assert(e[d.len() as int].id@ == id);
                }
            }
            assert forall|i: int, j: int| 0 <= i < j < e.len() implies (#[trigger] e[i]).id@ != (
            #[trigger] e[j]).id@ by {
                if j == d.len() {
                    assert(e[i] == d[i]);
                    if d[i].id@ == x.id@ {
                        assert(has_track_id(d, x.id@));
                    }
                } else {
                    assert(e[i] == d[i] && e[j] == d[j]);
                }
            }
        }
    }
}

/// The title a queued search result gets: `"{channel} - {title}"`, or the
/// title alone when the channel is empty.
pub open spec fn queue_title_of(result: SearchResult) -> Seq<char> {
    if result.channel@.len() == 0 {
        result.title@
    } else {
        result.channel@ + " - "@ + result.title@
    }
}

/// The title a queued search result gets.
pub fn queue_title(result: &SearchResult) -> (t: String)
    ensures
        t@ == queue_title_of(*result),
{
    if result.channel.as_str().is_empty() {
        result.title.clone()
    } else {
        let mut t = String::new();
        push_str(&mut t, result.channel.as_str());
        push_str(&mut t, " - ");
        push_str(&mut t, result.title.as_str());
        t
    }
}

/// The job source a search result is queued as: its video, under its
/// queue title.
pub fn queued_source(result: &SearchResult) -> (s: JobSource)
    ensures
        s matches JobSource::Youtube { video_id, title } && video_id@ == result.video_id@ && title@
            == queue_title_of(*result),
{
    JobSource::Youtube { video_id: result.video_id.clone(), title: queue_title(result) }
}

/// The folder whose existence marks a search result as already processed:
/// `<output_dir>/<title> (<video id>)`, sanitised.
pub open spec fn result_dir_of(output_dir: Seq<char>, result: SearchResult, os: TargetOs) -> Seq<char> {
    path_join(output_dir, folder_name(result.title@, Some(result.video_id@)), os)
}

/// The folder whose existence marks a search result as already processed.
pub fn result_output_dir(output_dir: &str, result: &SearchResult, os: TargetOs) -> (p: String)
    ensures
        p@ == result_dir_of(output_dir@, *result, os),
{
    let folder = output_folder_name(result.title.as_str(), Some(result.video_id.as_str()));
    join_path(output_dir, folder.as_str(), os)
}


/// The high-quality thumbnail of a video, fetched for each search result.
pub fn hq_thumbnail_url(video_id: &str) -> (u: String)
    ensures
        u@ == "https://i.ytimg.com/vi/"@ + video_id@ + "/hqdefault.jpg"@,
{
    let mut u = String::new();
    push_str(&mut u, "https://i.ytimg.com/vi/");
    push_str(&mut u, video_id);
    push_str(&mut u, "/hqdefault.jpg");
    u
}

} // verus!
