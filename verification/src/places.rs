//! Where the application keeps its files.

use vstd::prelude::*;

verus! {

/// The directory that a location starts from.
#[derive(Clone, Copy, Debug, PartialEq, Eq, Structural)]
pub enum Base {
    /// The user's configuration directory.
    ConfigDir,
    /// The directory that the process runs in.
    CurrentDir,
}

/// A file or directory: the names to descend by, starting from a base.
#[derive(Debug, PartialEq, Eq)]
pub struct Location {
    pub base: Base,
    pub names: Vec<String>,
}

/// A location with its names taken by their characters.
pub struct LocationView {
    pub base: Base,
    pub names: Seq<Seq<char>>,
}

impl View for Location {
    type V = LocationView;

    open spec fn view(&self) -> LocationView {
        LocationView { base: self.base, names: self.names@.map_values(|name: String| name@) }
    }
}

impl Clone for Location {
    fn clone(&self) -> (copy: Self)
        ensures
            copy@ == self@,
    {
        let mut names: Vec<String> = Vec::new();
        let mut i: usize = 0;
        while i < self.names.len()
            invariant
                i <= self.names@.len(),
                names@ == self.names@.take(i as int),
            decreases self.names@.len() - i,
        {
            names.push(self.names[i].clone());
            i = i + 1;
            assert(names@ =~= self.names@.take(i as int));
        }
        assert(names@ =~= self.names@);
        Location { base: self.base, names }
    }
}

/// The user's configuration directory where it is known, and else the current
/// directory.
pub open spec fn base(config_dir_known: bool) -> Base {
    if config_dir_known {
        Base::ConfigDir
    } else {
        Base::CurrentDir
    }
}

/// The application's own directory.
pub open spec fn app_dir_at(config_dir_known: bool) -> LocationView {
    LocationView { base: base(config_dir_known), names: seq!["own-view"@] }
}

/// The log file.
pub open spec fn log_file_at(config_dir_known: bool) -> LocationView {
    LocationView { base: base(config_dir_known), names: seq!["own-view"@, "own-view.log"@] }
}

/// The configuration file.
pub open spec fn config_file_at(config_dir_known: bool) -> LocationView {
    LocationView { base: base(config_dir_known), names: seq!["own-view"@, "config.json"@] }
}

/// The desktop's directory of entries that are started at login.
pub open spec fn autostart_dir_at() -> LocationView {
    LocationView { base: Base::ConfigDir, names: seq!["autostart"@] }
}

/// The application's entry in that directory.
pub open spec fn desktop_file_at() -> LocationView {
    LocationView { base: Base::ConfigDir, names: seq!["autostart"@, "own-view.desktop"@] }
}

fn base_dir(config_dir_known: bool) -> (found: Base)
    ensures
        found == base(config_dir_known),
{
    if config_dir_known {
        Base::ConfigDir
    } else {
        Base::CurrentDir
    }
}

fn directory(base: Base, name: &str) -> (place: Location)
    ensures
        place@ == (LocationView { base, names: seq![name@] }),
{
    let mut names: Vec<String> = Vec::new();
    names.push(name.to_owned());
    let place = Location { base, names };
    assert(place@.names =~= seq![name@]);
    place
}

fn file(base: Base, dir: &str, name: &str) -> (place: Location)
    ensures
        place@ == (LocationView { base, names: seq![dir@, name@] }),
{
    let mut names: Vec<String> = Vec::new();
    names.push(dir.to_owned());
    names.push(name.to_owned());
    let place = Location { base, names };
    assert(place@.names =~= seq![dir@, name@]);
    place
}

/// The application's own directory.
pub fn app_dir(config_dir_known: bool) -> (place: Location)
    ensures
        place@ == app_dir_at(config_dir_known),
{
    directory(base_dir(config_dir_known), "own-view")
}

/// The log file, in the application's own directory.
pub fn log_file(config_dir_known: bool) -> (place: Location)
    ensures
        place@ == log_file_at(config_dir_known),
{
    file(base_dir(config_dir_known), "own-view", "own-view.log")
}

/// The choice of the log file, made once for the whole run.
#[derive(Debug, PartialEq, Eq)]
pub struct LogPath {
    pub chosen: Option<Location>,
}

/// What asking for the log file gives: the file, and the directory to create
/// first, if one is to be created.
#[derive(Debug, PartialEq, Eq)]
pub struct LogAnswer {
    pub file: Location,
    pub create_dir: Option<Location>,
}

/// An answer with its locations taken by their views.
pub struct LogAnswerView {
    pub file: LocationView,
    pub create_dir: Option<LocationView>,
}

impl View for LogPath {
    type V = Option<LocationView>;

    open spec fn view(&self) -> Option<LocationView> {
        match self.chosen {
            Some(place) => Some(place@),
            None => None,
        }
    }
}

impl View for LogAnswer {
    type V = LogAnswerView;

    open spec fn view(&self) -> LogAnswerView {
        LogAnswerView {
            file: self.file@,
            create_dir: match self.create_dir {
                Some(place) => Some(place@),
                None => None,
            },
        }
    }
}

/// The answer to the question for the log file: what was chosen before is kept, and
/// only the first question asks for the directory.
pub open spec fn log_answer(
    chosen: Option<LocationView>,
    config_dir_known: bool,
) -> LogAnswerView {
    match chosen {
        Some(place) => LogAnswerView { file: place, create_dir: None },
        None => LogAnswerView {
            file: log_file_at(config_dir_known),
            create_dir: Some(app_dir_at(config_dir_known)),
        },
    }
}

impl LogPath {
    /// Nothing chosen yet.
    pub fn new() -> (path: LogPath)
        ensures
            path@ == None::<LocationView>,
    {
        LogPath { chosen: None }
    }

    /// Gives the log file, and chooses it where that was not done before.
    pub fn init_log_path(&mut self, config_dir_known: bool) -> (answer: LogAnswer)
        ensures
            answer@ == log_answer(old(self)@, config_dir_known),
            final(self)@ == Some(answer@.file),
    {
        match &self.chosen {
            Some(place) => LogAnswer { file: place.clone(), create_dir: None },
            None => {
                let place = log_file(config_dir_known);
                self.chosen = Some(place.clone());
                LogAnswer { file: place, create_dir: Some(app_dir(config_dir_known)) }
            },
        }
    }
}

/// The answers to a series of questions, each with what is known at its time.
pub open spec fn log_answers(chosen: Option<LocationView>, known: Seq<bool>) -> Seq<LogAnswerView>
    decreases known.len(),
{
    if known.len() == 0 {
        Seq::empty()
    } else {
        let answer = log_answer(chosen, known[0]);
        seq![answer] + log_answers(Some(answer.file), known.drop_first())
    }
}

proof fn lemma_chosen_is_kept(place: LocationView, known: Seq<bool>)
    ensures
        log_answers(Some(place), known).len() == known.len(),
        forall|i: int|
            0 <= i < known.len() ==> #[trigger] log_answers(Some(place), known)[i] == (
            LogAnswerView { file: place, create_dir: None }),
    decreases known.len(),
{
    if known.len() > 0 {
        let rest = log_answers(Some(place), known.drop_first());
        lemma_chosen_is_kept(place, known.drop_first());
        assert forall|i: int| 0 <= i < known.len() implies #[trigger] log_answers(
            Some(place),
            known,
        )[i] == (LogAnswerView { file: place, create_dir: None }) by {
            if i > 0 {
                assert(log_answers(Some(place), known)[i] == rest[i - 1]);
            }
        }
    }
}

/// Every question for the log file gets the answer that fitted the first one, even
/// if the configuration directory becomes known or unknown later, and only the
/// first asks for a directory to be created.
pub proof fn law_first_log_file_is_kept(known: Seq<bool>)
    ensures
        log_answers(None, known).len() == known.len(),
        forall|i: int|
            0 <= i < known.len() ==> #[trigger] log_answers(None, known)[i] == (LogAnswerView {
                file: log_file_at(known[0]),
                create_dir: if i == 0 {
                    Some(app_dir_at(known[0]))
                } else {
                    None
                },
            }),
{
    if known.len() > 0 {
        let place = log_file_at(known[0]);
        let rest = log_answers(Some(place), known.drop_first());
        lemma_chosen_is_kept(place, known.drop_first());
        assert forall|i: int| 0 < i < known.len() implies #[trigger] log_answers(None, known)[i] == (
        LogAnswerView { file: place, create_dir: None }) by {
            assert(log_answers(None, known)[i] == rest[i - 1]);
        }
    }
}

/// The configuration file, in the application's own directory.
pub fn config_file(config_dir_known: bool) -> (place: Location)
    ensures
        place@ == config_file_at(config_dir_known),
{
    file(base_dir(config_dir_known), "own-view", "config.json")
}

/// The desktop's directory of entries that are started at login.
pub fn autostart_dir() -> (place: Location)
    ensures
        place@ == autostart_dir_at(),
{
    directory(Base::ConfigDir, "autostart")
}

/// The application's entry in that directory.
pub fn desktop_file() -> (place: Location)
    ensures
        place@ == desktop_file_at(),
{
    file(Base::ConfigDir, "autostart", "own-view.desktop")
}

/// The application's files stand in its own directory, next to each other; without a known
/// configuration directory they start from the current one.
pub proof fn law_files_stand_in_the_app_dir(config_dir_known: bool)
    ensures
        app_dir_at(config_dir_known).base == (if config_dir_known {
            Base::ConfigDir
        } else {
            Base::CurrentDir
        }),
        app_dir_at(config_dir_known).names == seq!["own-view"@],
        config_file_at(config_dir_known).base == app_dir_at(config_dir_known).base,
        log_file_at(config_dir_known).base == app_dir_at(config_dir_known).base,
        config_file_at(config_dir_known).names == app_dir_at(config_dir_known).names.push(
            "config.json"@,
        ),
        log_file_at(config_dir_known).names == app_dir_at(config_dir_known).names.push(
            "own-view.log"@,
        ),
{
    assert(config_file_at(config_dir_known).names =~= seq!["own-view"@].push("config.json"@));
    assert(log_file_at(config_dir_known).names =~= seq!["own-view"@].push("own-view.log"@));
}

/// The entry stands in the directory of entries that are started at login, which stands in
/// the configuration directory.
pub proof fn law_entry_stands_in_the_autostart_dir()
    ensures
        autostart_dir_at().base == Base::ConfigDir,
        autostart_dir_at().names == seq!["autostart"@],
        desktop_file_at().base == Base::ConfigDir,
        desktop_file_at().names == autostart_dir_at().names.push("own-view.desktop"@),
{
    assert(desktop_file_at().names =~= seq!["autostart"@].push("own-view.desktop"@));
}

/// A file once chosen is the answer from then on, whichever it is, and no directory is
/// asked for again.
pub proof fn law_chosen_log_file_is_answered(place: LocationView, config_dir_known: bool)
    ensures
        log_answer(Some(place), config_dir_known).file == place,
        log_answer(Some(place), config_dir_known).create_dir is None,
        log_answer(None, config_dir_known).file == log_file_at(config_dir_known),
        log_answer(None, config_dir_known).create_dir == Some(app_dir_at(config_dir_known)),
{
}

/// Nothing of a location is lost or moved in its view.
pub proof fn law_location_view_keeps_each_name(place: Location)
    ensures
        place@.base == place.base,
        place@.names.len() == place.names@.len(),
        forall|i: int| 0 <= i < place.names@.len() ==> #[trigger] place@.names[i] == place.names@[i]@,
{
}

/// Nothing of the log file's choice or of an answer is lost or moved in its view.
pub proof fn law_log_views_keep_contents(file: Location, dir: Location)
    ensures
        (LogPath { chosen: Some(file) })@ == Some(file@),
        (LogPath { chosen: None })@ is None,
        (LogAnswer { file, create_dir: Some(dir) })@ == (LogAnswerView {
            file: file@,
            create_dir: Some(dir@),
        }),
        (LogAnswer { file, create_dir: None })@ == (LogAnswerView {
            file: file@,
            create_dir: None,
        }),
{
}

} // verus!
