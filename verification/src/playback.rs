use crate::error::JbError;
use crate::ident::Id;
use crate::library::{Library, LibraryView};
use crate::queue::{Queue, QueueView};
use crate::settings::{GlobalSettings, GlobalSettingsView};
use crate::song::{Song, SongView};
use crate::time::TimeSpan;
use vstd::prelude::*;

verus! {

/// What the audio sink is doing, as the controller sees it.
#[derive(Clone, Copy, Debug, PartialEq, Eq, Structural)]
pub enum PlaybackState {
    /// A sink is held and runs.
    Play,
    /// A sink is held and is paused.
    Pause,
    /// No sink is held.
    Stop,
}

impl PlaybackState {
    /// Whether a sink is held in this state.
    pub open spec fn holds_sink(self) -> bool {
        self != PlaybackState::Stop
    }
}

/// What the host has to do after the controller has taken a decision.
#[derive(Debug)]
pub enum Effect {
    /// Nothing.
    Nothing,
    /// Let go of the sink if one is held, open a new one, decode the file at
    /// this path and hand the outcome to `Jukebox::song_opened`; on success,
    /// start the decoded audio on the new sink after that call.
    PlayFile(String),
    /// Pause the sink.
    PauseSink,
    /// Let the paused sink run again.
    ResumeSink,
    /// Let go of the sink.
    DropSink,
    /// Walk the folder, import what is found, and save the catalog to the file.
    ScanAndSave { folder_to_scan: String, library_file: String },
    /// Load the catalog from the file.
    LoadLibrary { library_file: String },
    /// Save the catalog to the file.
    SaveLibrary { library_file: String },
}

/// What an `Effect` holds, as plain mathematical values.
pub enum EffectView {
    Nothing,
    PlayFile(Seq<char>),
    PauseSink,
    ResumeSink,
    DropSink,
    ScanAndSave { folder_to_scan: Seq<char>, library_file: Seq<char> },
    LoadLibrary { library_file: Seq<char> },
    SaveLibrary { library_file: Seq<char> },
}

impl View for Effect {
    type V = EffectView;

    open spec fn view(&self) -> EffectView {
        match self {
            Effect::Nothing => EffectView::Nothing,
            Effect::PlayFile(path) => EffectView::PlayFile(path@),
            Effect::PauseSink => EffectView::PauseSink,
            Effect::ResumeSink => EffectView::ResumeSink,
            Effect::DropSink => EffectView::DropSink,
            Effect::ScanAndSave { folder_to_scan, library_file } => EffectView::ScanAndSave {
                folder_to_scan: folder_to_scan@,
                library_file: library_file@,
            },
            Effect::LoadLibrary { library_file } => EffectView::LoadLibrary {
                library_file: library_file@,
            },
            Effect::SaveLibrary { library_file } => EffectView::SaveLibrary {
                library_file: library_file@,
            },
        }
    }
}

/// What the host tells the controller: a command of the user, the tick of
/// the clock, or the outcome of work that the host did.
#[derive(Debug)]
pub enum Message {
    /// Start playback, or pause or resume it.
    TogglePlayback,
    /// Go to the entry before the one that playback is at.
    PreviousSong,
    /// Go to the entry after the one that playback is at.
    NextSong,
    /// Add this song at the end of the queue.
    EnqueueBack(Song),
    /// Add the song that the catalog holds under this identifier at the end
    /// of the queue.
    PickSong(Id),
    /// Scan the configured folder and save the catalog.
    Scan,
    /// A scan has ended, well or with this failure.
    ScanComplete(Result<(), String>),
    /// Save the catalog to the configured file.
    SaveLibrary,
    /// Load the catalog from the configured file.
    LoadLibrary,
    /// A load has ended, well or with this failure.
    LoadComplete(Result<(), String>),
    /// Use these settings from now on.
    SaveSettings(GlobalSettings),
    /// Time has passed; the sink has played this much of its audio.
    TickUpdate(TimeSpan),
    /// The file of a `PlayFile` effect was opened and decoded, or was not.
    SongOpened(Result<(), JbError>),
}

/// The playback controller as a mathematical value.
pub struct JukeboxView {
    pub sink: PlaybackState,
    pub global_settings: GlobalSettingsView,
    pub playback_queue: QueueView,
}

impl JukeboxView {
    /// The controller's invariant: the queue meets its own, and a sink is
    /// held only while the queue has entries.
    pub open spec fn wf(self) -> bool {
        &&& self.playback_queue.wf()
        &&& self.sink.holds_sink() ==> self.playback_queue.entries.len() > 0
    }

    /// The controller at start: no sink, an empty queue.
    pub open spec fn start(global_settings: GlobalSettingsView) -> JukeboxView {
        JukeboxView {
            sink: PlaybackState::Stop,
            global_settings,
            playback_queue: QueueView::empty(),
        }
    }

    /// The controller with another queue.
    pub open spec fn with_queue(self, playback_queue: QueueView) -> JukeboxView {
        JukeboxView { playback_queue, ..self }
    }

    /// The controller in another sink state.
    pub open spec fn with_sink(self, sink: PlaybackState) -> JukeboxView {
        JukeboxView { sink, ..self }
    }

    /// Playing the entry that playback is at: the sink is let go of, and the
    /// host is asked to open the entry's file. Nothing happens in the empty
    /// queue.
    pub open spec fn play_song_from_queue(self) -> (JukeboxView, EffectView) {
        match self.playback_queue.current() {
            Some(entry) => (
                self.with_sink(PlaybackState::Stop),
                EffectView::PlayFile(entry.song.file_path),
            ),
            None => (self, EffectView::Nothing),
        }
    }

    /// The end of playing an entry. Where the file was opened and the queue
    /// has entries, the entry that playback is at becomes the current one and
    /// the sink runs. Else no sink is held, and queue and index are as they
    /// were.
    pub open spec fn song_opened(self, opened: bool) -> JukeboxView {
        if opened && self.playback_queue.entries.len() > 0 {
            self.with_sink(PlaybackState::Play).with_queue(
                self.playback_queue.mark_current(self.playback_queue.playback_index as int),
            )
        } else {
            self.with_sink(PlaybackState::Stop)
        }
    }

    /// The play/pause switch: without a sink the entry that playback is at
    /// is played; a running sink is paused, a paused one resumed.
    pub open spec fn toggle_playback(self) -> (JukeboxView, EffectView) {
        match self.sink {
            PlaybackState::Stop => self.play_song_from_queue(),
            PlaybackState::Play => (self.with_sink(PlaybackState::Pause), EffectView::PauseSink),
            PlaybackState::Pause => (self.with_sink(PlaybackState::Play), EffectView::ResumeSink),
        }
    }

    /// Going on: nothing in the empty queue; else the playback index moves
    /// one entry on, unless it is on the last, and that entry is played.
    pub open spec fn next_in_queue(self) -> (JukeboxView, EffectView) {
        if self.playback_queue.entries.len() == 0 {
            (self, EffectView::Nothing)
        } else {
            self.with_queue(self.playback_queue.step_forward()).play_song_from_queue()
        }
    }

    /// Going back: the playback index moves one entry back, unless it is on
    /// the first, and that entry is played.
    pub open spec fn prev_in_queue(self) -> (JukeboxView, EffectView) {
        self.with_queue(self.playback_queue.step_back()).play_song_from_queue()
    }

    /// Whether the entry that playback is at has been played to its end once
    /// the sink has played `elapsed`: nothing of its duration remains. In
    /// the empty queue there is nothing left to play.
    pub open spec fn track_ended(self, elapsed: TimeSpan) -> bool {
        match self.playback_queue.current() {
            Some(entry) => entry.song.duration.total_nanos() <= elapsed.total_nanos(),
            None => true,
        }
    }

    /// The tick of the clock: where a sink runs and the entry has been
    /// played to its end, the controller goes on; else nothing happens.
    pub open spec fn update_time(self, elapsed: TimeSpan) -> (JukeboxView, EffectView) {
        if self.sink == PlaybackState::Play && self.track_ended(elapsed) {
            self.next_in_queue()
        } else {
            (self, EffectView::Nothing)
        }
    }

    /// Stopping: the sink is let go of, if one is held.
    pub open spec fn kill_sink(self) -> (JukeboxView, EffectView) {
        (
            self.with_sink(PlaybackState::Stop),
            if self.sink.holds_sink() {
                EffectView::DropSink
            } else {
                EffectView::Nothing
            },
        )
    }

    /// The song that the catalog holds under `id` added at the end of the
    /// queue; nothing where the catalog holds none.
    pub open spec fn pick(self, library: LibraryView, id: Id) -> JukeboxView {
        if library.songs.contains_key(id) {
            self.with_queue(self.playback_queue.push_back(library.songs[id]))
        } else {
            self
        }
    }

    /// What the controller does on `event`, with `library` as the catalog:
    /// its next state and what the host has to do.
    pub open spec fn update(self, library: LibraryView, event: Message) -> (
        JukeboxView,
        EffectView,
    ) {
        match event {
            Message::TogglePlayback => self.toggle_playback(),
            Message::PreviousSong => self.prev_in_queue(),
            Message::NextSong => self.next_in_queue(),
            Message::EnqueueBack(song) => (
                self.with_queue(self.playback_queue.push_back(song@)),
                EffectView::Nothing,
            ),
            Message::PickSong(id) => (self.pick(library, id), EffectView::Nothing),
            Message::Scan => (
                self,
                EffectView::ScanAndSave {
                    folder_to_scan: self.global_settings.folder_to_scan,
                    library_file: self.global_settings.library_file,
                },
            ),
            Message::ScanComplete(_) => (self, EffectView::Nothing),
            Message::SaveLibrary => (
                self,
                EffectView::SaveLibrary { library_file: self.global_settings.library_file },
            ),
            Message::LoadLibrary => (
                self,
                EffectView::LoadLibrary { library_file: self.global_settings.library_file },
            ),
            Message::LoadComplete(_) => (self, EffectView::Nothing),
            Message::SaveSettings(settings) => (
                JukeboxView { global_settings: settings@, ..self },
                EffectView::Nothing,
            ),
            Message::TickUpdate(elapsed) => self.update_time(elapsed),
            Message::SongOpened(outcome) => (self.song_opened(outcome is Ok), EffectView::Nothing),
        }
    }
}

impl JukeboxView {
    /// Whatever message arrives, the controller keeps its invariant.
    pub proof fn lemma_update_wf(self, library: LibraryView, event: Message)
        requires
            self.wf(),
        ensures
            self.update(library, event).0.wf(),
    {
        let queue = self.playback_queue;
        queue.lemma_step_wf();
        queue.lemma_mark_current_wf(queue.playback_index as int);
        match event {
            Message::EnqueueBack(song) => {
                queue.lemma_push_back_wf(song@);
            },
            Message::PickSong(id) => {
                if library.songs.contains_key(id) {
                    queue.lemma_push_back_wf(library.songs[id]);
                }
            },
            _ => {},
        }
    }

    /// Going on does nothing at all in the empty queue.
    pub proof fn lemma_next_in_empty_queue(self)
        requires
            self.playback_queue.entries.len() == 0,
        ensures
            self.next_in_queue() == (self, EffectView::Nothing),
    {
    }

    /// Going on from the last entry leaves the playback index where it is,
    /// and plays that entry again.
    pub proof fn lemma_next_at_last_entry(self)
        requires
            self.playback_queue.entries.len() > 0,
            self.playback_queue.playback_index == self.playback_queue.entries.len() - 1,
        ensures
            self.next_in_queue().0.playback_queue == self.playback_queue,
            self.next_in_queue().1 == EffectView::PlayFile(
                self.playback_queue.entries.last().song.file_path,
            ),
    {
    }

    /// Going back from the first entry leaves the playback index where it
    /// is.
    pub proof fn lemma_previous_at_first_entry(self)
        requires
            self.playback_queue.playback_index == 0,
        ensures
            self.prev_in_queue().0.playback_queue == self.playback_queue,
    {
    }

    /// A tick changes nothing and asks for nothing while the queue is empty.
    pub proof fn lemma_tick_in_empty_queue(self, elapsed: TimeSpan)
        requires
            self.playback_queue.entries.len() == 0,
        ensures
            self.update_time(elapsed) == (self, EffectView::Nothing),
    {
    }

    /// In a queue of one entry, the tick that finds the entry played to its
    /// end on a running sink leaves the playback index at 0 and plays the
    /// entry again.
    pub proof fn lemma_tick_replays_single_entry(self, elapsed: TimeSpan)
        requires
            self.wf(),
            self.playback_queue.entries.len() == 1,
            self.sink == PlaybackState::Play,
            self.playback_queue.entries[0].song.duration.total_nanos() <= elapsed.total_nanos(),
        ensures
            self.update_time(elapsed).0.playback_queue == self.playback_queue,
            self.update_time(elapsed).0.playback_queue.playback_index == 0,
            self.update_time(elapsed).1 == EffectView::PlayFile(
                self.playback_queue.entries[0].song.file_path,
            ),
    {
    }

    /// A tick changes nothing and asks for nothing unless a sink runs and
    /// the entry that playback is at has been played to its end.
    pub proof fn lemma_tick_before_end(self, elapsed: TimeSpan)
        requires
            self.sink != PlaybackState::Play || !self.track_ended(elapsed),
        ensures
            self.update_time(elapsed) == (self, EffectView::Nothing),
    {
    }

    /// Playing an entry changes neither the queue nor the playback index,
    /// whether the file can be opened or not; after a failure no sink is
    /// held and no entry has changed its mark.
    pub proof fn lemma_failed_play_keeps_queue(self)
        ensures
            self.play_song_from_queue().0.playback_queue == self.playback_queue,
            self.play_song_from_queue().0.song_opened(false).playback_queue
                == self.playback_queue,
            self.play_song_from_queue().0.song_opened(false).sink == PlaybackState::Stop,
    {
    }

    /// Once an entry's file was opened, the entry that playback is at is the
    /// one marked as current, no other is, and the sink runs.
    pub proof fn lemma_opened_song_is_current(self)
        requires
            self.wf(),
            self.playback_queue.entries.len() > 0,
        ensures
            self.song_opened(true).sink == PlaybackState::Play,
            forall|i: int|
                0 <= i < self.playback_queue.entries.len() ==> (
                #[trigger] self.song_opened(true).playback_queue.entries[i]).is_current == (i
                    == self.playback_queue.playback_index),
    {
    }

    /// A running sink that is toggled twice runs again, and nothing else has
    /// changed: the first toggle pauses it, the second resumes it.
    pub proof fn lemma_toggle_twice(self)
        requires
            self.sink == PlaybackState::Play,
        ensures
            self.toggle_playback() == (
                self.with_sink(PlaybackState::Pause),
                EffectView::PauseSink,
            ),
            self.toggle_playback().0.toggle_playback() == (self, EffectView::ResumeSink),
    {
    }

    /// From every state, while the queue has entries, going on or back plays
    /// an entry, and once its file is opened the sink runs; so does a toggle
    /// while no sink is held. Stopping leaves no sink held.
    pub proof fn lemma_commands_lead_to_playing(self)
        requires
            self.wf(),
            self.playback_queue.entries.len() > 0,
        ensures
            self.next_in_queue().1 is PlayFile,
            self.next_in_queue().0.song_opened(true).sink == PlaybackState::Play,
            self.prev_in_queue().1 is PlayFile,
            self.prev_in_queue().0.song_opened(true).sink == PlaybackState::Play,
            self.sink == PlaybackState::Stop ==> self.toggle_playback().1 is PlayFile
                && self.toggle_playback().0.song_opened(true).sink == PlaybackState::Play,
            self.kill_sink().0.sink == PlaybackState::Stop,
    {
        self.playback_queue.lemma_step_wf();
    }

    /// Adding songs to the queue never starts playback, and picking a song
    /// puts it where a later toggle finds it: at the end of the queue.
    pub proof fn lemma_pick_then_toggle(self, library: LibraryView, id: Id)
        requires
            self.wf(),
            self.sink == PlaybackState::Stop,
            self.playback_queue.entries.len() == 0,
            library.songs.contains_key(id),
        ensures
            self.pick(library, id).sink == PlaybackState::Stop,
            self.pick(library, id).toggle_playback().1 == EffectView::PlayFile(
                library.songs[id].file_path,
            ),
    {
    }
}

/// The playback controller: it owns the listening queue, knows what the
/// audio sink is doing, and decides what the host does with the sink.
pub struct Jukebox {
    sink: PlaybackState,
    global_settings: GlobalSettings,
    playback_queue: Queue,
}

impl View for Jukebox {
    type V = JukeboxView;

    closed spec fn view(&self) -> JukeboxView {
        JukeboxView {
            sink: self.sink,
            global_settings: self.global_settings@,
            playback_queue: self.playback_queue@,
        }
    }
}

/// The three parts of a controller.
struct Parts {
    sink: PlaybackState,
    global_settings: GlobalSettings,
    playback_queue: Queue,
}

impl Parts {
    /// The controller that the parts make up.
    spec fn whole(self) -> JukeboxView {
        JukeboxView {
            sink: self.sink,
            global_settings: self.global_settings@,
            playback_queue: self.playback_queue@,
        }
    }
}

impl Jukebox {
    /// Every value of the type meets the invariant.
    #[verifier::type_invariant]
    pub open spec fn inv(self) -> bool {
        self@.wf()
    }

    /// A controller with these settings, without a sink and with an empty
    /// queue.
    pub fn new(global_settings: GlobalSettings) -> (jukebox: Jukebox)
        ensures
            jukebox@ == JukeboxView::start(global_settings@),
            jukebox@.wf(),
    {
        Jukebox { sink: PlaybackState::Stop, global_settings, playback_queue: Queue::new() }
    }

    /// Takes the controller apart and leaves one at start behind.
    fn take(&mut self) -> (parts: Parts)
        ensures
            parts.whole() == old(self)@,
            old(self)@.wf(),
            final(self)@.wf(),
    {
        proof {
            use_type_invariant(&*self);
        }
        let mut taken = Jukebox::new(
            GlobalSettings { folder_to_scan: String::new(), library_file: String::new() },
        );
        std::mem::swap(self, &mut taken);
        let Jukebox { sink, global_settings, playback_queue } = taken;
        Parts { sink, global_settings, playback_queue }
    }

    /// Puts parts in the place of the controller.
    fn put(&mut self, parts: Parts)
        requires
            parts.whole().wf(),
        ensures
            final(self)@ == parts.whole(),
            final(self)@.wf(),
    {
        let Parts { sink, global_settings, playback_queue } = parts;
        *self = Jukebox { sink, global_settings, playback_queue };
    }

    /// What the audio sink is doing.
    pub fn sink_state(&self) -> (sink: PlaybackState)
        ensures
            sink == self@.sink,
            self@.wf(),
    {
        proof {
            use_type_invariant(self);
        }
        self.sink
    }

    /// The listening queue.
    pub fn playback_queue(&self) -> (queue: &Queue)
        ensures
            queue@ == self@.playback_queue,
    {
        &self.playback_queue
    }

    /// The index of the entry that playback is at.
    pub fn playback_index(&self) -> (index: usize)
        ensures
            index == self@.playback_queue.playback_index,
    {
        self.playback_queue.playback_index()
    }

    /// The settings in use.
    pub fn global_settings(&self) -> (settings: &GlobalSettings)
        ensures
            settings@ == self@.global_settings,
    {
        &self.global_settings
    }

    /// Adds `song` at the end of the queue. Playback is not started.
    pub fn add_song_to_queue_end(&mut self, song: Song)
        ensures
            final(self)@ == old(self)@.with_queue(old(self)@.playback_queue.push_back(song@)),
            final(self)@.wf(),
    {
        let mut parts = self.take();
        parts.playback_queue.push_back(song);
        self.put(parts);
    }

    /// Adds `song` at the start of the queue. Playback is not started, and
    /// the playback index keeps its value.
    pub fn add_song_to_queue_start(&mut self, song: Song)
        ensures
            final(self)@ == old(self)@.with_queue(old(self)@.playback_queue.push_front(song@)),
            final(self)@.wf(),
    {
        let mut parts = self.take();
        parts.playback_queue.push_front(song);
        self.put(parts);
    }

    /// Moves the entry at `from` so that it stands at `to`, and says whether
    /// it did: it does nothing where `from` or `to` is no place of the queue.
    pub fn reorder_song_in_queue(&mut self, from: usize, to: usize) -> (moved: bool)
        ensures
            moved == old(self)@.playback_queue.can_reorder(from as int, to as int),
            final(self)@ == old(self)@.with_queue(
                old(self)@.playback_queue.reorder(from as int, to as int),
            ),
            final(self)@.wf(),
    {
        let mut parts = self.take();
        let moved = parts.playback_queue.reorder(from, to);
        self.put(parts);
        moved
    }

    /// Adds the song that `library` holds under `id` at the end of the
    /// queue, and says whether there is one. Playback is not started.
    pub fn pick(&mut self, library: &Library, id: Id) -> (found: bool)
        ensures
            found == library@.songs.contains_key(id),
            final(self)@ == old(self)@.pick(library@, id),
            final(self)@.wf(),
    {
        match library.get_song(id) {
            Some(song) => {
                self.add_song_to_queue_end(song.clone());
                true
            },
            None => {
                proof {
                    use_type_invariant(&*self);
                }
                false
            },
        }
    }

    /// Lets go of the sink, if one is held.
    pub fn kill_sink(&mut self) -> (effect: Effect)
        ensures
            (final(self)@, effect@) == old(self)@.kill_sink(),
            final(self)@.wf(),
    {
        let mut parts = self.take();
        let effect = match parts.sink {
            PlaybackState::Stop => Effect::Nothing,
            _ => Effect::DropSink,
        };
        parts.sink = PlaybackState::Stop;
        self.put(parts);
        effect
    }

    /// Plays the entry that playback is at: lets go of the sink and asks the
    /// host to open the entry's file. Queue and index stay as they are. The
    /// host reports the outcome to `song_opened`. Nothing happens in the empty
    /// queue.
    pub fn play_song_from_queue(&mut self) -> (effect: Effect)
        ensures
            (final(self)@, effect@) == old(self)@.play_song_from_queue(),
            final(self)@.wf(),
    {
        let mut parts = self.take();
        let file_path = match parts.playback_queue.current() {
            Some(entry) => Some(entry.song.file_path.clone()),
            None => None,
        };
        match file_path {
            Some(file_path) => {
                parts.sink = PlaybackState::Stop;
                self.put(parts);
                Effect::PlayFile(file_path)
            },
            None => {
                self.put(parts);
                Effect::Nothing
            },
        }
    }

    /// Ends the playing of an entry with the outcome of opening its file, and
    /// hands a failure on. On success, in a queue with entries, the entry
    /// that playback is at becomes the current one and the sink runs. On
    /// failure no sink is held; queue and index are as they were.
    pub fn song_opened(&mut self, outcome: Result<(), JbError>) -> (result: Result<(), JbError>)
        ensures
            result == outcome,
            final(self)@ == old(self)@.song_opened(outcome is Ok),
            final(self)@.wf(),
    {
        let mut parts = self.take();
        if outcome.is_ok() && parts.playback_queue.len() > 0 {
            let index = parts.playback_queue.playback_index();
            parts.playback_queue.mark_current(index);
            parts.sink = PlaybackState::Play;
        } else {
            parts.sink = PlaybackState::Stop;
        }
        self.put(parts);
        outcome
    }

    /// The play/pause switch: without a sink, plays the entry that playback
    /// is at; pauses a running sink and resumes a paused one.
    pub fn toggle_playback(&mut self) -> (effect: Effect)
        ensures
            (final(self)@, effect@) == old(self)@.toggle_playback(),
            final(self)@.wf(),
    {
        match self.sink_state() {
            PlaybackState::Stop => self.play_song_from_queue(),
            PlaybackState::Play | PlaybackState::Pause => self.toggle_sink_playback(),
        }
    }

    /// Pauses a running sink and resumes a paused one; does nothing where no
    /// sink is held.
    pub fn toggle_sink_playback(&mut self) -> (effect: Effect)
        ensures
            old(self)@.sink.holds_sink() ==> (final(self)@, effect@) == old(
                self,
            )@.toggle_playback(),
            !old(self)@.sink.holds_sink() ==> final(self)@ == old(self)@ && effect@
                == EffectView::Nothing,
            final(self)@.wf(),
    {
        let mut parts = self.take();
        let effect = match parts.sink {
            PlaybackState::Play => {
                parts.sink = PlaybackState::Pause;
                Effect::PauseSink
            },
            PlaybackState::Pause => {
                parts.sink = PlaybackState::Play;
                Effect::ResumeSink
            },
            PlaybackState::Stop => Effect::Nothing,
        };
        self.put(parts);
        effect
    }

    /// Goes on to the next entry and plays it; replays the last entry when
    /// playback is at it; does nothing in the empty queue.
    pub fn next_in_queue(&mut self) -> (effect: Effect)
        ensures
            (final(self)@, effect@) == old(self)@.next_in_queue(),
            final(self)@.wf(),
    {
        let mut parts = self.take();
        if parts.playback_queue.len() == 0 {
            self.put(parts);
            return Effect::Nothing;
        }
        parts.playback_queue.step_forward();
        self.put(parts);
        self.play_song_from_queue()
    }

    /// Goes back to the entry before and plays it; replays the first entry
    /// when playback is at it.
    pub fn prev_in_queue(&mut self) -> (effect: Effect)
        ensures
            (final(self)@, effect@) == old(self)@.prev_in_queue(),
            final(self)@.wf(),
    {
        let mut parts = self.take();
        parts.playback_queue.step_back();
        self.put(parts);
        self.play_song_from_queue()
    }

    /// The tick of the clock, with how much of its audio the sink has played:
    /// goes on to the next entry where a sink runs and nothing remains of the
    /// entry's duration.
    pub fn update_time(&mut self, elapsed: TimeSpan) -> (effect: Effect)
        ensures
            (final(self)@, effect@) == old(self)@.update_time(elapsed),
            final(self)@.wf(),
    {
        let ended = match self.playback_queue.current() {
            Some(entry) => entry.song.duration.remaining_after(&elapsed) == 0,
            None => true,
        };
        match self.sink_state() {
            PlaybackState::Play => {
                if ended {
                    self.next_in_queue()
                } else {
                    Effect::Nothing
                }
            },
            _ => Effect::Nothing,
        }
    }

    /// Takes one message from the host, with `library` as the catalog to
    /// pick songs from, and says what the host has to do.
    pub fn update(&mut self, library: &Library, event: Message) -> (effect: Effect)
        ensures
            (final(self)@, effect@) == old(self)@.update(library@, event),
            final(self)@.wf(),
    {
        match event {
            Message::TogglePlayback => self.toggle_playback(),
            Message::PreviousSong => self.prev_in_queue(),
            Message::NextSong => self.next_in_queue(),
            Message::EnqueueBack(song) => {
                self.add_song_to_queue_end(song);
                Effect::Nothing
            },
            Message::PickSong(id) => {
                self.pick(library, id);
                Effect::Nothing
            },
            Message::Scan => {
                proof {
                    use_type_invariant(&*self);
                }
                Effect::ScanAndSave {
                    folder_to_scan: self.global_settings.folder_to_scan.clone(),
                    library_file: self.global_settings.library_file.clone(),
                }
            },
            Message::SaveLibrary => {
                proof {
                    use_type_invariant(&*self);
                }
                Effect::SaveLibrary { library_file: self.global_settings.library_file.clone() }
            },
            Message::LoadLibrary => {
                proof {
                    use_type_invariant(&*self);
                }
                Effect::LoadLibrary { library_file: self.global_settings.library_file.clone() }
            },
            Message::ScanComplete(_) | Message::LoadComplete(_) => {
                proof {
                    use_type_invariant(&*self);
                }
                Effect::Nothing
            },
            Message::SaveSettings(settings) => {
                let mut parts = self.take();
                parts.global_settings = settings;
                self.put(parts);
                Effect::Nothing
            },
            Message::TickUpdate(elapsed) => self.update_time(elapsed),
            Message::SongOpened(outcome) => {
                let _ = self.song_opened(outcome);
                Effect::Nothing
            },
        }
    }
}

} // verus!
