//! Audio: sound kinds and radio stations.

use vstd::prelude::*;

verus! {

/// Kind of sound.
#[derive(Debug, Clone, Copy, PartialEq, Eq, Structural, Hash)]
pub enum SoundKind {
    /// Short effect (shot, engine start, crash).
    Sfx,
    /// Background mood.
    Ambient,
    /// Music track.
    Music,
    /// Car radio.
    Radio,
    /// Dialog or voice-over.
    Voice,
    /// UI click.
    Ui,
}

/// Display name of a `SoundKind`.
pub open spec fn sound_kind_label(x: SoundKind) -> Seq<char> {
    match x {
        SoundKind::Sfx => "SFX"@,
        SoundKind::Ambient => "Ambient"@,
        SoundKind::Music => "Music"@,
        SoundKind::Radio => "Radio"@,
        SoundKind::Voice => "Voice"@,
        SoundKind::Ui => "UI"@,
    }
}

impl SoundKind {
    pub fn label(&self) -> (s: &'static str)
        ensures
            s@ == sound_kind_label(*self),
    {
        match self {
            SoundKind::Sfx => "SFX",
            SoundKind::Ambient => "Ambient",
            SoundKind::Music => "Music",
            SoundKind::Radio => "Radio",
            SoundKind::Voice => "Voice",
            SoundKind::Ui => "UI",
        }
    }

    /// Whether a sound of this kind loops when it is made: background
    /// mood, music and the radio do; effects, voices and UI clicks play once.
    pub fn loops(&self) -> (b: bool)
        ensures
            b == (*self == SoundKind::Ambient || *self == SoundKind::Music || *self == SoundKind::Radio),
    {
        match self {
            SoundKind::Ambient | SoundKind::Music | SoundKind::Radio => true,
            _ => false,
        }
    }
}

/// A radio station and the track it is playing.
#[derive(Debug)]
pub struct RadioStation {
    pub id: String,
    pub name: String,
    pub genre: String,
    /// Track list (paths).
    pub tracks: Vec<String>,
    pub current_track: usize,
}

/// The track after `current` in a list of `len` tracks, wrapping around;
/// an empty list stays where it is.
pub open spec fn next_track_index(current: int, len: int) -> int {
    if len > 0 { (current + 1) % len } else { current }
}

/// The track reached from `current` after `k` skips.
pub open spec fn skip_tracks(current: int, len: int, k: nat) -> int
    decreases k,
{
    if k == 0 { current } else { next_track_index(skip_tracks(current, len, (k - 1) as nat), len) }
}

impl RadioStation {
    /// A station with no tracks, at track 0.
    pub fn new(id: &str, name: &str, genre: &str) -> (r: RadioStation)
        ensures
            r.id@ == id@,
            r.name@ == name@,
            r.genre@ == genre@,
            r.tracks@.len() == 0,
            r.current_track == 0,
    {
        RadioStation {
            id: id.to_owned(),
            name: name.to_owned(),
            genre: genre.to_owned(),
            tracks: Vec::new(),
            current_track: 0,
        }
    }

    /// Skips to the next track, wrapping to the first after the last.
    pub fn next_track(&mut self)
        requires
            old(self).tracks@.len() > 0 ==> old(self).current_track < usize::MAX,
        ensures
            final(self).current_track == next_track_index(old(self).current_track as int, old(self).tracks@.len() as int),
            final(self).tracks == old(self).tracks,
            final(self).id == old(self).id,
            final(self).name == old(self).name,
            final(self).genre == old(self).genre,
    {
        if self.tracks.len() > 0 {
            self.current_track = (self.current_track + 1) % self.tracks.len();
        }
    }
}

/// The sound system's playback state: the station in the car, the known
/// stations, the mute switch and the sounds queued for this frame.
#[derive(Debug)]
pub struct AudioSystem {
    /// Station playing in the car, if any.
    pub active_radio: Option<String>,
    pub stations: Vec<RadioStation>,
    pub muted: bool,
    /// Queued sounds (id, kind).
    pub play_queue: Vec<(String, SoundKind)>,
}

/// The queue seen as (sound id, kind) pairs.
pub open spec fn queue_view(q: Seq<(String, SoundKind)>) -> Seq<(Seq<char>, SoundKind)> {
    q.map_values(|e: (String, SoundKind)| (e.0@, e.1))
}

impl Default for AudioSystem {
    fn default() -> (a: AudioSystem)
        ensures
            a.active_radio.is_none(),
            a.stations@.len() == 0,
            !a.muted,
            a.play_queue@.len() == 0,
    {
        AudioSystem { active_radio: None, stations: Vec::new(), muted: false, play_queue: Vec::new() }
    }
}

impl AudioSystem {
    /// Unmuted, no stations, nothing queued.
    pub fn new() -> (a: AudioSystem)
        ensures
            a.active_radio.is_none(),
            a.stations@.len() == 0,
            !a.muted,
            a.play_queue@.len() == 0,
    {
        AudioSystem { active_radio: None, stations: Vec::new(), muted: false, play_queue: Vec::new() }
    }

    /// Queues a sound of the given kind.
    fn enqueue(&mut self, id: &str, kind: SoundKind)
        ensures
            queue_view(final(self).play_queue@) == queue_view(old(self).play_queue@).push((id@, kind)),
            final(self).active_radio == old(self).active_radio,
            final(self).stations == old(self).stations,
            final(self).muted == old(self).muted,
    {
        self.play_queue.push((id.to_owned(), kind));
        proof {
            assert(queue_view(self.play_queue@) =~= queue_view(old(self).play_queue@).push((id@, kind)));
        }
    }

    /// Queues a sound effect.
    pub fn play_sfx(&mut self, id: &str)
        ensures
            queue_view(final(self).play_queue@) == queue_view(old(self).play_queue@).push((id@, SoundKind::Sfx)),
            final(self).active_radio == old(self).active_radio,
            final(self).stations == old(self).stations,
            final(self).muted == old(self).muted,
    {
        self.enqueue(id, SoundKind::Sfx);
    }

    /// Queues a UI sound.
    pub fn play_ui(&mut self, id: &str)
        ensures
            queue_view(final(self).play_queue@) == queue_view(old(self).play_queue@).push((id@, SoundKind::Ui)),
            final(self).active_radio == old(self).active_radio,
            final(self).stations == old(self).stations,
            final(self).muted == old(self).muted,
    {
        self.enqueue(id, SoundKind::Ui);
    }

    /// Queues a voice line.
    pub fn play_voice(&mut self, id: &str)
        ensures
            queue_view(final(self).play_queue@) == queue_view(old(self).play_queue@).push((id@, SoundKind::Voice)),
            final(self).active_radio == old(self).active_radio,
            final(self).stations == old(self).stations,
            final(self).muted == old(self).muted,
    {
        self.enqueue(id, SoundKind::Voice);
    }

    /// Tunes the car radio to a station.
    pub fn set_radio(&mut self, station_id: &str)
        ensures
            final(self).active_radio matches Some(r) && r@ == station_id@,
            final(self).stations == old(self).stations,
            final(self).muted == old(self).muted,
            final(self).play_queue == old(self).play_queue,
    {
        self.active_radio = Some(station_id.to_owned());
    }

    /// Switches the car radio off.
    pub fn stop_radio(&mut self)
        ensures
            final(self).active_radio.is_none(),
            final(self).stations == old(self).stations,
            final(self).muted == old(self).muted,
            final(self).play_queue == old(self).play_queue,
    {
        self.active_radio = None;
    }

    /// Flips the mute switch.
    pub fn toggle_mute(&mut self)
        ensures
            final(self).muted == !old(self).muted,
            final(self).active_radio == old(self).active_radio,
            final(self).stations == old(self).stations,
            final(self).play_queue == old(self).play_queue,
    {
        self.muted = !self.muted;
    }

    /// Adds a station to the dial.
    pub fn add_station(&mut self, station: RadioStation)
        ensures
            final(self).stations@ == old(self).stations@.push(station),
            final(self).active_radio == old(self).active_radio,
            final(self).muted == old(self).muted,
            final(self).play_queue == old(self).play_queue,
    {
        self.stations.push(station);
    }

    /// Plays (drops) everything queued.
    pub fn tick(&mut self)
        ensures
            final(self).play_queue@.len() == 0,
            final(self).active_radio == old(self).active_radio,
            final(self).stations == old(self).stations,
            final(self).muted == old(self).muted,
    {
        self.play_queue.clear();
    }
}

/// Skipping once through the whole list, from any track on it, comes back
/// to that track; every skip stays on the list.
pub proof fn lemma_skip_full_cycle(current: int, len: int)
    requires
        0 <= current < len,
    ensures
        skip_tracks(current, len, len as nat) == current,
{
    lemma_skip_is_mod(current, len, len as nat);
    vstd::arithmetic::div_mod::lemma_mod_self_0(len);
    vstd::arithmetic::div_mod::lemma_add_mod_noop(current, len, len);
    vstd::arithmetic::div_mod::lemma_small_mod(current as nat, len as nat);
}

/// After `k` skips from a track on the list, the station plays track
/// `(current + k) % len`.
pub proof fn lemma_skip_is_mod(current: int, len: int, k: nat)
    requires
        0 <= current < len,
    ensures
        skip_tracks(current, len, k) == (current + k) % len,
        0 <= skip_tracks(current, len, k) < len,
    decreases k,
{
    if k == 0 {
        vstd::arithmetic::div_mod::lemma_small_mod(current as nat, len as nat);
    } else {
        lemma_skip_is_mod(current, len, (k - 1) as nat);
        let prev = current + k - 1;
        vstd::arithmetic::div_mod::lemma_add_mod_noop(prev, 1, len);
        vstd::arithmetic::div_mod::lemma_mod_bound(prev % len + 1, len);
        vstd::arithmetic::div_mod::lemma_mod_bound(prev, len);
        if len > 1 {
            vstd::arithmetic::div_mod::lemma_small_mod(1, len as nat);
        } else {
            vstd::arithmetic::div_mod::lemma_mod_bound(1, len);
            vstd::arithmetic::div_mod::lemma_mod_bound(prev + 1, len);
            vstd::arithmetic::div_mod::lemma_mod_bound(prev % len + 1, len);
        }
        vstd::arithmetic::div_mod::lemma_mod_bound(current + k, len);
    }
}

} // verus!
