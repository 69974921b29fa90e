use tendril_core::pipeline::job::{job_output_dir, JobSource};
use tendril_core::platform::TargetOs;
use tendril_core::youtube::search::{queued_source, result_output_dir};
use tendril_core::youtube::search::{interleave_results, map_track_item, merge_search_tabs, queue_title, SearchResult, TrackInfo};

fn track(id: &str, name: &str, artists: &[&str], covers: &[&str], duration: Option<u32>) -> TrackInfo {
    TrackInfo {
        id: id.to_string(),
        name: name.to_string(),
        artists: artists.iter().map(|a| a.to_string()).collect(),
        covers: covers.iter().map(|c| c.to_string()).collect(),
        duration,
    }
}

fn ids(r: &[SearchResult]) -> Vec<&str> {
    r.iter().map(|x| x.video_id.as_str()).collect()
}

#[test]
fn track_maps_to_result() {
    let r = map_track_item(&track("abc", "Song", &["A", "B", "C"], &["https://img/1", "https://img/2"], Some(215)));
    assert_eq!(r.video_id, "abc");
    assert_eq!(r.title, "Song");
    assert_eq!(r.channel, "A, B, C");
    assert_eq!(r.duration_secs, 215);
    assert_eq!(r.thumbnail_url, "https://img/1");

    let r = map_track_item(&track("xyz", "Other", &[], &[], None));
    assert_eq!(r.channel, "");
    assert_eq!(r.duration_secs, 0);
    assert_eq!(r.thumbnail_url, "https://i.ytimg.com/vi/xyz/hqdefault.jpg");
}

#[test]
fn tabs_interleave_video_first_and_drop_repeats() {
    let videos = vec![track("v1", "", &[], &[], None), track("s1", "", &[], &[], None), track("v3", "", &[], &[], None)];
    let tracks = vec![track("s1", "", &[], &[], None), track("s2", "", &[], &[], None)];
    let r = interleave_results(&videos, &tracks);
    assert_eq!(ids(&r), vec!["v1", "s1", "s2", "v3"]);
}

#[test]
fn a_failed_tab_counts_as_empty() {
    let tracks = vec![track("s1", "", &[], &[], None), track("s2", "", &[], &[], None)];
    let r = merge_search_tabs(Some(tracks.clone()), None).unwrap();
    assert_eq!(ids(&r), vec!["s1", "s2"]);
    let r = merge_search_tabs(None, Some(tracks)).unwrap();
    assert_eq!(ids(&r), vec!["s1", "s2"]);
    assert!(merge_search_tabs(None, None).is_none());
    assert!(merge_search_tabs(Some(vec![]), Some(vec![])).unwrap().is_empty());
}

#[test]
fn queued_title_prefixes_the_channel() {
    let mut r = map_track_item(&track("id", "Song", &["Band"], &[], None));
    assert_eq!(queue_title(&r), "Band - Song");
    r.channel = String::new();
    assert_eq!(queue_title(&r), "Song");
}

#[test]
fn queued_source_and_result_folder() {
    let r = map_track_item(&track("id1", "Song: Live", &[], &[], Some(1)));
    let s = queued_source(&r);
    assert_eq!(result_output_dir("/out", &r, TargetOs::Linux), "/out/song_ live (id1)");
    assert_eq!(job_output_dir("/out", &s, TargetOs::Linux), "/out/song_ live (id1)");
    let r = map_track_item(&track("id2", "Song", &["Band"], &[], None));
    match queued_source(&r) {
        JobSource::Youtube { video_id, title } => {
            assert_eq!(video_id, "id2");
            assert_eq!(title, "Band - Song");
        }
        _ => panic!("expected a video source"),
    }
    // With a channel, the queued job's folder carries the channel too.
    assert_eq!(job_output_dir("/out", &queued_source(&r), TargetOs::Linux), "/out/band - song (id2)");
    assert_eq!(result_output_dir("/out", &r, TargetOs::Linux), "/out/song (id2)");
}

#[test]
fn thumbnail_url_of_a_video() {
    assert_eq!(
        tendril_core::youtube::search::hq_thumbnail_url("abc"),
        "https://i.ytimg.com/vi/abc/hqdefault.jpg"
    );
}
