//! The catalog of bundled playlists: the records, how a JSON document is read
//! as one, and how the embedded directory is read as a list of them.

use crate::bundle::{
    file_path, file_text, files_of, has_json_extension, is_json_path, list_files, path_of, text_of,
};
use crate::json::{
    error_message, error_text, has_member_count, has_members, lemma_members_by_count, list_at,
    list_member, member_at, parse_text, parsed_text, text_at, text_member,
};
use vstd::prelude::*;
use vstd::string::*;

verus! {

/// One playable tier of a song.
#[derive(Debug, Clone, PartialEq, Eq)]
pub struct Difficulty {
    pub name: String,
    pub characteristic: String,
}

/// A [`Difficulty`] as a mathematical value.
pub struct DifficultyView {
    pub name: Seq<char>,
    pub characteristic: Seq<char>,
}

impl View for Difficulty {
    type V = DifficultyView;

    open spec fn view(&self) -> DifficultyView {
        DifficultyView { name: self.name@, characteristic: self.characteristic@ }
    }
}

/// One track, with what identifies it and the tiers it can be played at.
#[derive(Debug, Clone, PartialEq, Eq)]
pub struct Song {
    pub hash: String,
    pub bsr: String,
    pub song_name: String,
    pub song_artist: String,
    pub song_mapper: String,
    pub date_uploaded: String,
    pub difficulties: Vec<Difficulty>,
}

/// A [`Song`] as a mathematical value.
pub struct SongView {
    pub hash: Seq<char>,
    pub bsr: Seq<char>,
    pub song_name: Seq<char>,
    pub song_artist: Seq<char>,
    pub song_mapper: Seq<char>,
    pub date_uploaded: Seq<char>,
    pub difficulties: Seq<DifficultyView>,
}

impl View for Song {
    type V = SongView;

    open spec fn view(&self) -> SongView {
        SongView {
            hash: self.hash@,
            bsr: self.bsr@,
            song_name: self.song_name@,
            song_artist: self.song_artist@,
            song_mapper: self.song_mapper@,
            date_uploaded: self.date_uploaded@,
            difficulties: self.difficulties@.map_values(|d: Difficulty| d@),
        }
    }
}

/// A named list of songs.
#[derive(Debug, Clone, PartialEq, Eq)]
pub struct Playlist {
    pub playlist_title: String,
    pub songs: Vec<Song>,
}

/// A [`Playlist`] as a mathematical value.
pub struct PlaylistView {
    pub playlist_title: Seq<char>,
    pub songs: Seq<SongView>,
}

impl View for Playlist {
    type V = PlaylistView;

    open spec fn view(&self) -> PlaylistView {
        PlaylistView {
            playlist_title: self.playlist_title@,
            songs: self.songs@.map_values(|s: Song| s@),
        }
    }
}

/// The names of the members of a difficulty document.
pub open spec fn difficulty_names() -> Set<Seq<char>> {
    set!["name"@, "characteristic"@]
}

/// The names of the members of a song document.
pub open spec fn song_names() -> Set<Seq<char>> {
    set![
        "hash"@,
        "bsr"@,
        "song_name"@,
        "song_artist"@,
        "song_mapper"@,
        "date_uploaded"@,
        "difficulties"@,
    ]
}

/// The names of the members of a playlist document.
pub open spec fn playlist_names() -> Set<Seq<char>> {
    set!["playlist_title"@, "songs"@]
}

/// The difficulty that a JSON value stands for: an object with the strings
/// `name` and `characteristic` and no other member.
pub open spec fn difficulty_of(v: serde_json::Value) -> Option<DifficultyView> {
    match (text_at(v, "name"@), text_at(v, "characteristic"@)) {
        (Some(name), Some(characteristic)) => if has_members(v, difficulty_names()) {
            Some(DifficultyView { name, characteristic })
        } else {
            None
        },
        _ => None,
    }
}

/// The difficulties that a run of JSON values stands for, where each of them
/// stands for one.
pub open spec fn difficulties_of(items: Seq<serde_json::Value>) -> Option<Seq<DifficultyView>> {
    if forall|i: int| 0 <= i < items.len() ==> (#[trigger] difficulty_of(items[i])) is Some {
        Some(items.map_values(|x: serde_json::Value| difficulty_of(x).unwrap()))
    } else {
        None
    }
}

/// There are two names of members of a difficulty.
proof fn lemma_difficulty_names()
    ensures
        difficulty_names().finite(),
        difficulty_names().len() == 2,
{
    reveal_strlit("name");
    reveal_strlit("characteristic");
    assert("name"@.len() != "characteristic"@.len());
}

/// Reads a JSON value as a difficulty.
pub fn difficulty_from(v: &serde_json::Value) -> (r: Option<Difficulty>)
    ensures
        match r {
            Some(d) => difficulty_of(*v) == Some(d@),
            None => difficulty_of(*v) is None,
        },
{
    proof {
        lemma_difficulty_names();
    }
    if !has_member_count(v, 2) {
        return None;
    }
    let name = match text_member(v, "name") {
        Some(s) => s,
        None => return None,
    };
    let characteristic = match text_member(v, "characteristic") {
        Some(s) => s,
        None => return None,
    };
    proof {
        lemma_members_by_count(*v, difficulty_names());
    }
    Some(Difficulty { name, characteristic })
}

/// Reads a run of JSON values as difficulties, all of them or none.
pub fn difficulties_from(items: &Vec<serde_json::Value>) -> (r: Option<Vec<Difficulty>>)
    ensures
        match r {
            Some(list) => difficulties_of(items@) == Some(list@.map_values(|d: Difficulty| d@)),
            None => difficulties_of(items@) is None,
        },
{
    let mut list: Vec<Difficulty> = Vec::new();
    let mut i: usize = 0;
    while i < items.len()
        invariant
            i <= items.len(),
            list.len() == i,
            forall|k: int| 0 <= k < i ==> difficulty_of(items@[k]) == Some(#[trigger] list@[k]@),
        decreases items.len() - i,
    {
        match difficulty_from(&items[i]) {
            Some(d) => list.push(d),
            None => return None,
        }
        i += 1;
    }
    proof {
        assert forall|k: int| 0 <= k < items.len() implies (#[trigger] difficulty_of(
            items@[k],
        )) is Some by {
            assert(difficulty_of(items@[k]) == Some(list@[k]@));
        }
        assert(list@.map_values(|d: Difficulty| d@) =~= items@.map_values(
            |x: serde_json::Value| difficulty_of(x).unwrap(),
        ));
    }
    Some(list)
}

/// The song that a JSON value stands for: an object with the six strings and
/// the array of difficulties that a [`Song`] has, and no other member.
pub open spec fn song_of(v: serde_json::Value) -> Option<SongView> {
    match (
        text_at(v, "hash"@),
        text_at(v, "bsr"@),
        text_at(v, "song_name"@),
        text_at(v, "song_artist"@),
        text_at(v, "song_mapper"@),
        text_at(v, "date_uploaded"@),
        list_at(v, "difficulties"@),
    ) {
        (
            Some(hash),
            Some(bsr),
            Some(song_name),
            Some(song_artist),
            Some(song_mapper),
            Some(date_uploaded),
            Some(items),
        ) => match difficulties_of(items) {
            Some(difficulties) => if has_members(v, song_names()) {
                Some(
                    SongView {
                        hash,
                        bsr,
                        song_name,
                        song_artist,
                        song_mapper,
                        date_uploaded,
                        difficulties,
                    },
                )
            } else {
                None
            },
            None => None,
        },
        _ => None,
    }
}

/// The songs that a run of JSON values stands for, where each of them stands
/// for one.
pub open spec fn songs_of(items: Seq<serde_json::Value>) -> Option<Seq<SongView>> {
    if forall|i: int| 0 <= i < items.len() ==> (#[trigger] song_of(items[i])) is Some {
        Some(items.map_values(|x: serde_json::Value| song_of(x).unwrap()))
    } else {
        None
    }
}

/// The playlist that a JSON value stands for: an object with the string
/// `playlist_title` and the array `songs` and no other member. A value holds
/// each key once: where the text of a document wrote a key twice, the value
/// has what was written last.
pub open spec fn playlist_of(v: serde_json::Value) -> Option<PlaylistView> {
    match (text_at(v, "playlist_title"@), list_at(v, "songs"@)) {
        (Some(playlist_title), Some(items)) => match songs_of(items) {
            Some(songs) => if has_members(v, playlist_names()) {
                Some(PlaylistView { playlist_title, songs })
            } else {
                None
            },
            None => None,
        },
        _ => None,
    }
}

/// There are seven names of members of a song.
proof fn lemma_song_names()
    ensures
        song_names().finite(),
        song_names().len() == 7,
{
    reveal_strlit("hash");
    reveal_strlit("bsr");
    reveal_strlit("song_name");
    reveal_strlit("song_artist");
    reveal_strlit("song_mapper");
    reveal_strlit("date_uploaded");
    reveal_strlit("difficulties");
    assert("hash"@.len() == 4);
    assert("bsr"@.len() == 3);
    assert("song_name"@.len() == 9);
    assert("song_artist"@.len() == 11);
    assert("song_mapper"@.len() == 11);
    assert("date_uploaded"@.len() == 13);
    assert("difficulties"@.len() == 12);
    assert("song_artist"@[5] != "song_mapper"@[5]);
    let one = set!["hash"@];
    let two = one.insert("bsr"@);
    let three = two.insert("song_name"@);
    let four = three.insert("song_artist"@);
    let five = four.insert("song_mapper"@);
    let six = five.insert("date_uploaded"@);
    assert(one.len() == 1);
    assert(two.len() == 2);
    assert(three.len() == 3);
    assert(four.len() == 4);
    assert(five.len() == 5);
    assert(six.len() == 6);
    assert(song_names() =~= six.insert("difficulties"@));
}

/// There are two names of members of a playlist.
proof fn lemma_playlist_names()
    ensures
        playlist_names().finite(),
        playlist_names().len() == 2,
{
    reveal_strlit("playlist_title");
    reveal_strlit("songs");
    assert("playlist_title"@.len() != "songs"@.len());
}

/// Reads a JSON value as a song.
pub fn song_from(v: &serde_json::Value) -> (r: Option<Song>)
    ensures
        match r {
            Some(s) => song_of(*v) == Some(s@),
            None => song_of(*v) is None,
        },
{
    proof {
        lemma_song_names();
    }
    if !has_member_count(v, 7) {
        return None;
    }
    let hash = match text_member(v, "hash") {
        Some(s) => s,
        None => return None,
    };
    let bsr = match text_member(v, "bsr") {
        Some(s) => s,
        None => return None,
    };
    let song_name = match text_member(v, "song_name") {
        Some(s) => s,
        None => return None,
    };
    let song_artist = match text_member(v, "song_artist") {
        Some(s) => s,
        None => return None,
    };
    let song_mapper = match text_member(v, "song_mapper") {
        Some(s) => s,
        None => return None,
    };
    let date_uploaded = match text_member(v, "date_uploaded") {
        Some(s) => s,
        None => return None,
    };
    let items = match list_member(v, "difficulties") {
        Some(items) => items,
        None => return None,
    };
    let difficulties = match difficulties_from(items) {
        Some(list) => list,
        None => return None,
    };
    proof {
        lemma_members_by_count(*v, song_names());
    }
    Some(Song { hash, bsr, song_name, song_artist, song_mapper, date_uploaded, difficulties })
}

/// Reads a run of JSON values as songs, all of them or none.
pub fn songs_from(items: &Vec<serde_json::Value>) -> (r: Option<Vec<Song>>)
    ensures
        match r {
            Some(list) => songs_of(items@) == Some(list@.map_values(|s: Song| s@)),
            None => songs_of(items@) is None,
        },
{
    let mut list: Vec<Song> = Vec::new();
    let mut i: usize = 0;
    while i < items.len()
        invariant
            i <= items.len(),
            list.len() == i,
            forall|k: int| 0 <= k < i ==> song_of(items@[k]) == Some(#[trigger] list@[k]@),
        decreases items.len() - i,
    {
        match song_from(&items[i]) {
            Some(s) => list.push(s),
            None => return None,
        }
        i += 1;
    }
    proof {
        assert forall|k: int| 0 <= k < items.len() implies (#[trigger] song_of(
            items@[k],
        )) is Some by {
            assert(song_of(items@[k]) == Some(list@[k]@));
        }
        assert(list@.map_values(|s: Song| s@) =~= items@.map_values(
            |x: serde_json::Value| song_of(x).unwrap(),
        ));
    }
    Some(list)
}

/// Reads a JSON value as a playlist.
pub fn playlist_from(v: &serde_json::Value) -> (r: Option<Playlist>)
    ensures
        match r {
            Some(p) => playlist_of(*v) == Some(p@),
            None => playlist_of(*v) is None,
        },
{
    proof {
        lemma_playlist_names();
    }
    if !has_member_count(v, 2) {
        return None;
    }
    let playlist_title = match text_member(v, "playlist_title") {
        Some(s) => s,
        None => return None,
    };
    let items = match list_member(v, "songs") {
        Some(items) => items,
        None => return None,
    };
    let songs = match songs_from(items) {
        Some(list) => list,
        None => return None,
    };
    proof {
        lemma_members_by_count(*v, playlist_names());
    }
    Some(Playlist { playlist_title, songs })
}

/// What is said of a document that is sound JSON and still no playlist.
pub open spec fn not_a_playlist() -> Seq<char> {
    "the document does not have the shape of a playlist"@
}

/// What a text yields when read as a playlist: the playlist, or the reason why
/// there is none. The reason is the parser's own message where the text is not
/// JSON at all.
pub open spec fn playlist_of_text(text: Seq<char>) -> Result<PlaylistView, Seq<char>> {
    match parsed_text(text) {
        Err(e) => Err(error_message(e)),
        Ok(v) => match playlist_of(v) {
            Some(p) => Ok(p),
            None => Err(not_a_playlist()),
        },
    }
}

/// What an embedded file yields when read as a playlist: the playlist, or the
/// message of the failure, which names the file's path.
pub open spec fn playlist_of_file(file: include_dir::File<'_>) -> Result<PlaylistView, Seq<char>> {
    match text_of(file) {
        None => Err("Failed to read file: "@ + path_of(file)),
        Some(text) => match playlist_of_text(text) {
            Ok(p) => Ok(p),
            Err(reason) => Err("Failed to parse JSON from "@ + path_of(file) + ": "@ + reason),
        },
    }
}

/// What a run of embedded files yields: the playlists of those with the
/// extension `json`, in the order of the files, or the message of the first of
/// them that fails.
pub open spec fn catalog_of(files: Seq<include_dir::File<'_>>) -> Result<
    Seq<PlaylistView>,
    Seq<char>,
>
    decreases files.len(),
{
    if files.len() == 0 {
        Ok(Seq::empty())
    } else {
        match catalog_of(files.drop_last()) {
            Err(message) => Err(message),
            Ok(playlists) => if is_json_path(path_of(files.last())) {
                match playlist_of_file(files.last()) {
                    Ok(p) => Ok(playlists.push(p)),
                    Err(message) => Err(message),
                }
            } else {
                Ok(playlists)
            },
        }
    }
}

/// Reads a text as a playlist.
pub fn parse_playlist(text: &str) -> (r: Result<Playlist, String>)
    ensures
        match r {
            Ok(p) => playlist_of_text(text@) == Ok::<PlaylistView, Seq<char>>(p@),
            Err(reason) => playlist_of_text(text@) == Err::<PlaylistView, Seq<char>>(reason@),
        },
{
    match parse_text(text) {
        Err(e) => Err(error_text(&e)),
        Ok(v) => match playlist_from(&v) {
            Some(p) => Ok(p),
            None => Err("the document does not have the shape of a playlist".to_owned()),
        },
    }
}

/// Reads an embedded file as a playlist.
pub fn load_playlist(file: &include_dir::File<'_>) -> (r: Result<Playlist, String>)
    ensures
        match r {
            Ok(p) => playlist_of_file(*file) == Ok::<PlaylistView, Seq<char>>(p@),
            Err(message) => playlist_of_file(*file) == Err::<PlaylistView, Seq<char>>(message@),
        },
{
    let location = file_path(file);
    match file_text(file) {
        None => {
            let mut message = "Failed to read file: ".to_owned();
            message.append(location.as_str());
            Err(message)
        },
        Some(contents) => match parse_playlist(contents) {
            Ok(p) => Ok(p),
            Err(reason) => {
                let mut message = "Failed to parse JSON from ".to_owned();
                message.append(location.as_str());
                message.append(": ");
                message.append(reason.as_str());
                Err(message)
            },
        },
    }
}

/// Lists the playlists of an embedded directory: one for each file directly in
/// it that has the extension `json`, in the directory's order. The first file
/// that cannot be read as a playlist fails the whole call, with a message that
/// names its path.
pub fn get_playlists(dir: &include_dir::Dir<'_>) -> (r: Result<Vec<Playlist>, String>)
    ensures
        match r {
            Ok(playlists) => catalog_of(files_of(*dir)) == Ok::<Seq<PlaylistView>, Seq<char>>(
                playlists@.map_values(|p: Playlist| p@),
            ),
            Err(message) => catalog_of(files_of(*dir)) == Err::<Seq<PlaylistView>, Seq<char>>(
                message@,
            ),
        },
{
    let entries = list_files(dir);
    let ghost all = files_of(*dir);
    let mut playlists: Vec<Playlist> = Vec::new();
    let mut i: usize = 0;
    proof {
        assert(all.take(0) =~= Seq::empty());
        assert(playlists@.map_values(|p: Playlist| p@) =~= Seq::empty());
    }
    while i < entries.len()
        invariant
            i <= entries.len(),
            all == files_of(*dir),
            entries@.len() == all.len(),
            forall|k: int| 0 <= k < entries@.len() ==> *#[trigger] entries@[k] == all[k],
            catalog_of(all.take(i as int)) == Ok::<Seq<PlaylistView>, Seq<char>>(
                playlists@.map_values(|p: Playlist| p@),
            ),
        decreases entries.len() - i,
    {
        let file = entries[i];
        proof {
            assert(all.take(i + 1).drop_last() =~= all.take(i as int));
            assert(all.take(i + 1).last() == *file);
        }
        if has_json_extension(file_path(file).as_str()) {
            match load_playlist(file) {
                Ok(p) => {
                    proof {
                        assert(playlists@.push(p).map_values(|p: Playlist| p@)
                            =~= playlists@.map_values(|p: Playlist| p@).push(p@));
                    }
                    playlists.push(p);
                },
                Err(message) => {
                    proof {
                        assert(catalog_of(all.take(i + 1)) == Err::<Seq<PlaylistView>, Seq<char>>(
                            message@,
                        ));
                        lemma_failure_stays(all, i + 1);
                    }
                    return Err(message);
                },
            }
        }
        i += 1;
    }
    proof {
        assert(all.take(i as int) =~= all);
    }
    Ok(playlists)
}

/// Once a run of files has failed, every longer run fails with the same
/// message.
proof fn lemma_failure_stays(files: Seq<include_dir::File<'_>>, n: int)
    requires
        0 <= n <= files.len(),
        catalog_of(files.take(n)) is Err,
    ensures
        catalog_of(files) == catalog_of(files.take(n)),
    decreases files.len() - n,
{
    if n == files.len() {
        assert(files.take(n) =~= files);
    } else {
        assert(files.take(n + 1).drop_last() =~= files.take(n));
        lemma_failure_stays(files, n + 1);
    }
}

/// The files of a run that have the extension `json`, in the run's order.
pub open spec fn json_files(files: Seq<include_dir::File<'_>>) -> Seq<include_dir::File<'_>> {
    files.filter(|f: include_dir::File<'_>| is_json_path(path_of(f)))
}

/// Where every file with the extension `json` reads as a playlist, the catalog
/// succeeds and holds exactly one playlist for each such file, in the order of
/// the files: the playlist that the file reads as.
pub proof fn sound_files_are_all_listed(files: Seq<include_dir::File<'_>>)
    requires
        forall|i: int|
            0 <= i < files.len() && is_json_path(path_of(files[i])) ==> (#[trigger] playlist_of_file(
                files[i],
            )) is Ok,
    ensures
        catalog_of(files) == Ok::<Seq<PlaylistView>, Seq<char>>(
            json_files(files).map_values(|f: include_dir::File<'_>| playlist_of_file(f)->Ok_0),
        ),
    decreases files.len(),
{
    reveal(Seq::filter);
    let read = |f: include_dir::File<'_>| playlist_of_file(f)->Ok_0;
    if files.len() == 0 {
        assert(json_files(files).map_values(read) =~= Seq::empty());
    } else {
        let rest = files.drop_last();
        assert forall|i: int|
            0 <= i < rest.len() && is_json_path(path_of(rest[i])) implies (#[trigger] playlist_of_file(
            rest[i],
        )) is Ok by {
            assert(rest[i] == files[i]);
        }
        sound_files_are_all_listed(rest);
        assert(files.last() == files[files.len() - 1]);
        if is_json_path(path_of(files.last())) {
            assert(json_files(files) == json_files(rest).push(files.last()));
            assert(json_files(files).map_values(read) =~= json_files(rest).map_values(read).push(
                playlist_of_file(files.last())->Ok_0,
            ));
        } else {
            assert(json_files(files) == json_files(rest));
        }
    }
}

/// One file with the extension `json` that does not read as a playlist fails the
/// whole catalog: there is no list, whatever the other files hold.
pub proof fn one_bad_file_fails_the_catalog(files: Seq<include_dir::File<'_>>, i: int)
    requires
        0 <= i < files.len(),
        is_json_path(path_of(files[i])),
        playlist_of_file(files[i]) is Err,
    ensures
        catalog_of(files) is Err,
{
    assert(files.take(i + 1).last() == files[i]);
    lemma_failure_stays(files, i + 1);
}

/// The catalog fails with the message of the first file that has the extension
/// `json` and does not read as a playlist.
pub proof fn catalog_reports_the_first_bad_file(files: Seq<include_dir::File<'_>>, i: int)
    requires
        0 <= i < files.len(),
        is_json_path(path_of(files[i])),
        playlist_of_file(files[i]) is Err,
        forall|j: int|
            0 <= j < i && is_json_path(path_of(files[j])) ==> (#[trigger] playlist_of_file(
                files[j],
            )) is Ok,
    ensures
        catalog_of(files) == Err::<Seq<PlaylistView>, Seq<char>>(playlist_of_file(files[i])->Err_0),
{
    let before = files.take(i);
    assert forall|j: int|
        0 <= j < before.len() && is_json_path(path_of(before[j])) implies (#[trigger] playlist_of_file(
        before[j],
    )) is Ok by {
        assert(before[j] == files[j]);
    }
    sound_files_are_all_listed(before);
    assert(files.take(i + 1).drop_last() =~= before);
    assert(files.take(i + 1).last() == files[i]);
    lemma_failure_stays(files, i + 1);
}

/// A difficulty holds the two strings of its document, character for
/// character, and the document has no member besides.
pub proof fn difficulty_keeps_its_fields(v: serde_json::Value, d: DifficultyView)
    requires
        difficulty_of(v) == Some(d),
    ensures
        has_members(v, difficulty_names()),
        text_at(v, "name"@) == Some(d.name),
        text_at(v, "characteristic"@) == Some(d.characteristic),
{
}

/// A song holds the six strings of its document, character for character, and
/// one difficulty for each item of the document's `difficulties`, in order. The
/// document has no member besides.
pub proof fn song_keeps_its_fields(v: serde_json::Value, s: SongView)
    requires
        song_of(v) == Some(s),
    ensures
        has_members(v, song_names()),
        text_at(v, "hash"@) == Some(s.hash),
        text_at(v, "bsr"@) == Some(s.bsr),
        text_at(v, "song_name"@) == Some(s.song_name),
        text_at(v, "song_artist"@) == Some(s.song_artist),
        text_at(v, "song_mapper"@) == Some(s.song_mapper),
        text_at(v, "date_uploaded"@) == Some(s.date_uploaded),
        list_at(v, "difficulties"@) matches Some(items) && items.len() == s.difficulties.len()
            && forall|i: int|
            0 <= i < items.len() ==> difficulty_of(#[trigger] items[i]) == Some(s.difficulties[i]),
{
}

/// A playlist holds the title of its document, character for character, and
/// one song for each item of the document's `songs`, in order. The document
/// has no member besides.
pub proof fn playlist_keeps_its_fields(v: serde_json::Value, p: PlaylistView)
    requires
        playlist_of(v) == Some(p),
    ensures
        has_members(v, playlist_names()),
        text_at(v, "playlist_title"@) == Some(p.playlist_title),
        list_at(v, "songs"@) matches Some(items) && items.len() == p.songs.len() && forall|i: int|
            0 <= i < items.len() ==> song_of(#[trigger] items[i]) == Some(p.songs[i]),
{
}

/// A document with a member that the record does not have stands for no
/// record, whatever its other members hold.
pub proof fn unknown_member_is_refused(v: serde_json::Value, key: Seq<char>)
    requires
        member_at(v, key) is Some,
    ensures
        !difficulty_names().contains(key) ==> difficulty_of(v) is None,
        !song_names().contains(key) ==> song_of(v) is None,
        !playlist_names().contains(key) ==> playlist_of(v) is None,
{
}

} // verus!
