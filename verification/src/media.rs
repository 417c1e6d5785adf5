//! The Snapshot Aggregator: turning the per-session values read from the
//! platform into normalized playback snapshots, tolerant of every optional
//! field, and ordering the results with the current session first.
//!
//! The platform reads themselves (title, artist, thumbnail stream, playback
//! info, timeline, player metadata) are performed by the I/O shell; each is
//! handed over as a typed optional value, absent when the platform call
//! failed. A session whose required fields (title, artist) are missing
//! yields no snapshot, and never disturbs its siblings.

use vstd::prelude::*;

verus! {

/// Timeline of a snapshot, in milliseconds.
#[derive(Clone, Copy, PartialEq, Eq, Structural, Debug)]
pub struct MediaTimelineProperties {
    pub start_time: u128,
    pub end_time: u128,
    pub position: u128,
}

/// Which transport controls the session currently offers.
#[derive(Clone, Copy, PartialEq, Eq, Structural, Debug)]
pub struct MediaPlaybackControls {
    pub play_enabled: bool,
    pub pause_enabled: bool,
    pub stop_enabled: bool,
    pub next_enabled: bool,
    pub prev_enabled: bool,
    pub toggle_enabled: bool,
    pub shuffle_enabled: bool,
    pub repeat_enabled: bool,
}

/// Display metadata of the application owning a session.
#[derive(PartialEq, Eq, Debug)]
pub struct MediaPlayerInfo {
    pub name: String,
    pub icon: Vec<u8>,
}

/// Normalized playback state of a session.
#[derive(PartialEq, Eq, Debug)]
pub struct MediaPlaybackInfo {
    pub controls: MediaPlaybackControls,
    pub status: String,
    pub is_shuffle: bool,
}

/// One fully assembled snapshot, produced once per poll per session.
#[derive(PartialEq, Eq, Debug)]
pub struct MediaInfo {
    pub title: String,
    pub artist: String,
    pub thumbnail: Vec<u8>,
    pub playback_info: Option<MediaPlaybackInfo>,
    pub player: Option<MediaPlayerInfo>,
    pub player_id: String,
    pub timeline_properties: Option<MediaTimelineProperties>,
    pub is_current_session: bool,
}

/// The playback status the platform reports for a session.
#[derive(Clone, Copy, PartialEq, Eq, Structural, Debug)]
pub enum PlaybackStatus {
    Closed,
    Opened,
    Changing,
    Stopped,
    Playing,
    Paused,
}

/// The label a status is reported under; a closed session has no meaningful
/// status and reads as unknown.
pub open spec fn status_label(status: PlaybackStatus) -> Seq<char> {
    match status {
        PlaybackStatus::Playing => "playing"@,
        PlaybackStatus::Paused => "paused"@,
        PlaybackStatus::Stopped => "stopped"@,
        PlaybackStatus::Changing => "changing"@,
        PlaybackStatus::Opened => "opened"@,
        PlaybackStatus::Closed => "unknown"@,
    }
}

pub fn get_playback_status(status: &PlaybackStatus) -> (r: String)
    ensures
        r@ == status_label(*status),
{
    match status {
        PlaybackStatus::Playing => "playing".to_owned(),
        PlaybackStatus::Paused => "paused".to_owned(),
        PlaybackStatus::Stopped => "stopped".to_owned(),
        PlaybackStatus::Changing => "changing".to_owned(),
        PlaybackStatus::Opened => "opened".to_owned(),
        PlaybackStatus::Closed => "unknown".to_owned(),
    }
}

/// A session timeline as the platform reports it: start, end and position
/// as durations counted in 100-nanosecond ticks.
#[derive(Clone, Copy, PartialEq, Eq, Structural, Debug)]
pub struct SessionTimeline {
    pub start_ticks: i64,
    pub end_ticks: i64,
    pub position_ticks: i64,
}

/// A tick count that can be converted: non-negative, and small enough that
/// scaling it to nanoseconds stays within the platform's own tick type.
pub open spec fn ticks_convertible(ticks: i64) -> bool {
    0 <= ticks && ticks * 100 <= i64::MAX
}

/// 100-nanosecond ticks expressed as whole milliseconds.
pub open spec fn ticks_to_millis(ticks: i64) -> int {
    ticks as int / 10000
}

pub open spec fn timeline_convertible(timeline: SessionTimeline) -> bool {
    ticks_convertible(timeline.start_ticks) && ticks_convertible(timeline.end_ticks)
        && ticks_convertible(timeline.position_ticks)
}

/// The milliseconds timeline a platform timeline converts to, or nothing
/// where its tick counts cannot be converted; the poll then reports the
/// session without timeline info rather than failing it.
pub open spec fn converted_timeline(timeline: SessionTimeline) -> Option<MediaTimelineProperties> {
    if timeline_convertible(timeline) {
        Some(
            MediaTimelineProperties {
                start_time: ticks_to_millis(timeline.start_ticks) as u128,
                end_time: ticks_to_millis(timeline.end_ticks) as u128,
                position: ticks_to_millis(timeline.position_ticks) as u128,
            },
        )
    } else {
        None
    }
}

/// Convert one tick count; the caller has checked convertibility.
fn ticks_to_millis_exec(ticks: i64) -> (r: u128)
    requires
        ticks_convertible(ticks),
    ensures
        r == ticks_to_millis(ticks),
{
    ((ticks as u64) / 10000) as u128
}

pub fn get_timeline_properties(timeline: &SessionTimeline) -> (r: Option<MediaTimelineProperties>)
    ensures
        r == converted_timeline(*timeline),
{
    let max_ticks: i64 = i64::MAX / 100;
    if timeline.start_ticks < 0 || timeline.start_ticks > max_ticks || timeline.end_ticks < 0
        || timeline.end_ticks > max_ticks || timeline.position_ticks < 0 || timeline.position_ticks
        > max_ticks {
        proof {
            assert(!timeline_convertible(*timeline));
        }
        return None;
    }
    Some(
        MediaTimelineProperties {
            start_time: ticks_to_millis_exec(timeline.start_ticks),
            end_time: ticks_to_millis_exec(timeline.end_ticks),
            position: ticks_to_millis_exec(timeline.position_ticks),
        },
    )
}

/// The playback values read for one session: the control switches, the
/// status, and the shuffle flag where the platform could report one.
#[derive(Clone, Copy, PartialEq, Eq, Structural, Debug)]
pub struct RawPlaybackInfo {
    pub controls: MediaPlaybackControls,
    pub status: PlaybackStatus,
    pub is_shuffle: Option<bool>,
}

/// Everything the per-session fetch read from the platform. Title and
/// artist are required; each other field is optional and absent where its
/// platform call failed.
#[derive(Debug)]
pub struct SessionProperties {
    pub title: Option<String>,
    pub artist: Option<String>,
    pub thumbnail: Option<Vec<u8>>,
    pub playback: Option<RawPlaybackInfo>,
    pub timeline: Option<SessionTimeline>,
}

/// The thumbnail a snapshot carries: the fetched bytes, or empty bytes when
/// the fetch failed.
pub open spec fn snapshot_thumbnail(thumbnail: Option<Vec<u8>>) -> Seq<u8> {
    match thumbnail {
        Some(bytes) => bytes@,
        None => Seq::empty(),
    }
}

/// The shuffle flag a snapshot carries: absent reads as not shuffling.
pub open spec fn snapshot_shuffle(is_shuffle: Option<bool>) -> bool {
    match is_shuffle {
        Some(flag) => flag,
        None => false,
    }
}

/// How a snapshot's playback info reflects the raw fetch result.
pub open spec fn playback_info_matches(
    raw: Option<RawPlaybackInfo>,
    out: Option<MediaPlaybackInfo>,
) -> bool {
    match raw {
        None => out is None,
        Some(pb) => out is Some && out->0.controls == pb.controls && out->0.status@
            == status_label(pb.status) && out->0.is_shuffle == snapshot_shuffle(pb.is_shuffle),
    }
}

/// How a snapshot's timeline reflects the raw fetch result.
pub open spec fn timeline_matches(
    raw: Option<SessionTimeline>,
    out: Option<MediaTimelineProperties>,
) -> bool {
    match raw {
        None => out is None,
        Some(t) => out == converted_timeline(t),
    }
}

/// Build the snapshot for one session from the values its fetch produced.
/// Missing title or artist fails this one session (no snapshot); every
/// optional absence degrades to a default instead. The player field is
/// filled by the later player-metadata step.
pub fn build_snapshot(player_id: String, is_current_session: bool, props: SessionProperties) -> (r:
    Option<MediaInfo>)
    ensures
        (r is Some) == (props.title is Some && props.artist is Some),
        r is Some ==> {
            let info = r->0;
            &&& info.title@ == props.title->0@
            &&& info.artist@ == props.artist->0@
            &&& info.thumbnail@ == snapshot_thumbnail(props.thumbnail)
            &&& playback_info_matches(props.playback, info.playback_info)
            &&& info.player is None
            &&& info.player_id@ == player_id@
            &&& timeline_matches(props.timeline, info.timeline_properties)
            &&& info.is_current_session == is_current_session
        },
{
    let title = match props.title {
        Some(t) => t,
        None => {
            return None;
        },
    };
    let artist = match props.artist {
        Some(a) => a,
        None => {
            return None;
        },
    };
    let thumbnail = match props.thumbnail {
        Some(bytes) => bytes,
        None => Vec::new(),
    };
    let playback_info = match props.playback {
        Some(pb) => Some(
            MediaPlaybackInfo {
                controls: pb.controls,
                status: get_playback_status(&pb.status),
                is_shuffle: match pb.is_shuffle {
                    Some(flag) => flag,
                    None => false,
                },
            },
        ),
        None => None,
    };
    let timeline_properties = match props.timeline {
        Some(t) => get_timeline_properties(&t),
        None => None,
    };
    Some(
        MediaInfo {
            title,
            artist,
            thumbnail,
            playback_info,
            player: None,
            player_id,
            timeline_properties,
            is_current_session,
        },
    )
}

/// How the player field reflects the player-metadata fetch: a failed fetch
/// degrades to an empty name and empty icon bytes, never to a failure.
pub open spec fn player_info_matches(raw: Option<MediaPlayerInfo>, out: MediaPlayerInfo) -> bool {
    match raw {
        Some(p) => out == p,
        None => out.name@ == Seq::<char>::empty() && out.icon@ == Seq::<u8>::empty(),
    }
}

pub fn player_info_or_default(player: Option<MediaPlayerInfo>) -> (r: MediaPlayerInfo)
    ensures
        player_info_matches(player, r),
{
    match player {
        Some(p) => p,
        None => MediaPlayerInfo { name: String::new(), icon: Vec::new() },
    }
}

/// Everything one poll fetched for one enumerated session, in dispatch
/// order: the resolved player id (absent where the platform could not
/// report one), the per-session property fetch (absent where that fetch
/// task failed as a whole), and the player-metadata fetch.
#[derive(Debug)]
pub struct SessionFetch {
    pub player_id: Option<String>,
    pub properties: Option<SessionProperties>,
    pub player: Option<MediaPlayerInfo>,
}

/// The player id a fetch is accounted under; an unreadable id reads as
/// "Unknown".
pub open spec fn resolved_player_id(f: SessionFetch) -> Seq<char> {
    match f.player_id {
        Some(s) => s@,
        None => "Unknown"@,
    }
}

/// Whether the fetch produced the required fields, so that a snapshot is
/// owed for it.
pub open spec fn fetch_succeeded(f: SessionFetch) -> bool {
    f.properties is Some && f.properties->0.title is Some && f.properties->0.artist is Some
}

pub open spec fn fetch_succeeded_pred() -> spec_fn(SessionFetch) -> bool {
    |f: SessionFetch| fetch_succeeded(f)
}

/// How a snapshot reflects the fetch it was built from.
pub open spec fn snapshot_matches_fetch(
    f: SessionFetch,
    current_player_id: Seq<char>,
    m: MediaInfo,
) -> bool {
    &&& m.title@ == f.properties->0.title->0@
    &&& m.artist@ == f.properties->0.artist->0@
    &&& m.thumbnail@ == snapshot_thumbnail(f.properties->0.thumbnail)
    &&& playback_info_matches(f.properties->0.playback, m.playback_info)
    &&& m.player is Some && player_info_matches(f.player, m.player->0)
    &&& m.player_id@ == resolved_player_id(f)
    &&& timeline_matches(f.properties->0.timeline, m.timeline_properties)
    &&& m.is_current_session == (resolved_player_id(f) == current_player_id)
}

/// The player ids a poll observed, one per enumerated session.
pub open spec fn resolved_ids(fetches: Seq<SessionFetch>) -> Seq<Seq<char>> {
    fetches.map_values(|f: SessionFetch| resolved_player_id(f))
}

/// The player ids this poll observed, for the reconciliation step; every
/// enumerated session counts as observed, whether or not its fetch
/// succeeded, so a transient failure never detaches a live session.
pub fn observed_player_ids(fetches: &Vec<SessionFetch>) -> (ids: Vec<String>)
    ensures
        ids.deep_view() == resolved_ids(fetches@),
{
    let n = fetches.len();
    let mut ids: Vec<String> = Vec::new();
    let mut i: usize = 0;
    #[verifier::loop_isolation(false)]
    while i < n
        invariant
            0 <= i <= n,
            ids.deep_view() == resolved_ids(fetches@.take(i as int)),
        decreases n - i,
    {
        let id = match &fetches[i].player_id {
            Some(s) => s.clone(),
            None => "Unknown".to_owned(),
        };
        let ghost prev = ids.deep_view();
        ids.push(id);
        proof {
            assert(ids.deep_view() =~= prev.push(id@));
            assert(resolved_ids(fetches@.take(i + 1)) =~= prev.push(resolved_player_id(
                fetches@[i as int],
            )));
        }
        i += 1;
    }
    proof {
        assert(fetches@.take(n as int) =~= fetches@);
    }
    ids
}

/// The ordered fan-in of the Snapshot Aggregator: one snapshot per
/// successfully fetched session, in the order the sessions were dispatched;
/// a failed session is dropped without disturbing the others. The player
/// field of each snapshot is filled from its player-metadata fetch,
/// degrading to empty display data where that fetch failed.
#[verifier::loop_isolation(false)]
pub fn aggregate_snapshots(fetches: Vec<SessionFetch>, current_player_id: &String) -> (r: Vec<
    MediaInfo,
>)
    ensures
        r@.len() == fetches@.filter(fetch_succeeded_pred()).len(),
        forall|i: int|
            0 <= i < r@.len() ==> snapshot_matches_fetch(
                #[trigger] fetches@.filter(fetch_succeeded_pred())[i],
                current_player_id@,
                r@[i],
            ),
{
    let ghost orig = fetches@;
    let ghost okp = fetch_succeeded_pred();
    let mut fetches = fetches;
    let mut r: Vec<MediaInfo> = Vec::new();
    while fetches.len() > 0
        invariant
            fetches@.len() <= orig.len(),
            fetches@ == orig.skip(orig.len() - fetches@.len()),
            r@.len() == orig.take(orig.len() - fetches@.len()).filter(okp).len(),
            forall|i: int|
                0 <= i < r@.len() ==> snapshot_matches_fetch(
                    #[trigger] orig.take(orig.len() - fetches@.len()).filter(okp)[i],
                    current_player_id@,
                    r@[i],
                ),
        decreases fetches@.len(),
    {
        let ghost p = orig.len() - fetches@.len();
        let f = fetches.remove(0);
        proof {
            reveal(Seq::filter);
            assert(f == orig[p]);
            assert(fetches@ =~= orig.skip(p + 1));
            assert(orig.take(p + 1).drop_last() =~= orig.take(p));
            assert(orig.take(p + 1).last() == orig[p]);
        }
        let SessionFetch { player_id, properties, player } = f;
        let resolved = match player_id {
            Some(s) => s,
            None => "Unknown".to_owned(),
        };
        let is_current = resolved == *current_player_id;
        match properties {
            Some(props) => {
                match build_snapshot(resolved, is_current, props) {
                    Some(info) => {
                        let mut info = info;
                        info.player = Some(player_info_or_default(player));
                        r.push(info);
                        proof {
                            assert(fetch_succeeded(orig[p]));
                            assert(orig.take(p + 1).filter(okp) =~= orig.take(p).filter(okp).push(
                                orig[p],
                            ));
                            assert(snapshot_matches_fetch(
                                orig[p],
                                current_player_id@,
                                r@[r@.len() - 1],
                            ));
                        }
                    },
                    None => {
                        proof {
                            assert(!fetch_succeeded(orig[p]));
                            assert(orig.take(p + 1).filter(okp) =~= orig.take(p).filter(okp));
                        }
                    },
                }
            },
            None => {
                proof {
                    assert(!fetch_succeeded(orig[p]));
                    assert(orig.take(p + 1).filter(okp) =~= orig.take(p).filter(okp));
                }
            },
        }
    }
    proof {
        assert(orig.take(orig.len() as int) =~= orig);
    }
    r
}

/// Holds of a snapshot belonging to the current session.
pub open spec fn is_current_pred() -> spec_fn(MediaInfo) -> bool {
    |m: MediaInfo| m.is_current_session
}

pub open spec fn not_current_pred() -> spec_fn(MediaInfo) -> bool {
    |m: MediaInfo| !m.is_current_session
}

/// The stable current-first order: snapshots of the current session, then
/// all others, each group keeping its enumeration order.
pub open spec fn current_first(players: Seq<MediaInfo>) -> Seq<MediaInfo> {
    players.filter(is_current_pred()) + players.filter(not_current_pred())
}

/// Stable sort on the single is-current key: the current session's
/// snapshots come first and the relative order of the rest is preserved
/// exactly as enumerated.
#[verifier::loop_isolation(false)]
pub fn order_snapshots(players: Vec<MediaInfo>) -> (r: Vec<MediaInfo>)
    ensures
        r@ == current_first(players@),
{
    let ghost orig = players@;
    let ghost curp = is_current_pred();
    let ghost notp = not_current_pred();
    let mut players = players;
    let mut current: Vec<MediaInfo> = Vec::new();
    let mut rest: Vec<MediaInfo> = Vec::new();
    while players.len() > 0
        invariant
            players@.len() <= orig.len(),
            players@ == orig.skip(orig.len() - players@.len()),
            current@ == orig.take(orig.len() - players@.len()).filter(curp),
            rest@ == orig.take(orig.len() - players@.len()).filter(notp),
        decreases players@.len(),
    {
        let ghost p = orig.len() - players@.len();
        let m = players.remove(0);
        proof {
            reveal(Seq::filter);
            assert(m == orig[p]);
            assert(players@ =~= orig.skip(p + 1));
            assert(orig.take(p + 1).drop_last() =~= orig.take(p));
            assert(orig.take(p + 1).last() == orig[p]);
        }
        if m.is_current_session {
            current.push(m);
        } else {
            rest.push(m);
        }
        proof {
            assert(current@ == orig.take(p + 1).filter(curp));
            assert(rest@ == orig.take(p + 1).filter(notp));
        }
    }
    proof {
        assert(orig.take(orig.len() as int) =~= orig);
    }
    let mut r = current;
    r.append(&mut rest);
    r
}

} // verus!
