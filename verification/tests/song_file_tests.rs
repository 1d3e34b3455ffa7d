use id3::frame::Content;
use id3::{Frame, Tag};
use mop::song_file::{SongError, SongFile};

fn tag_of(artist: &str, title: &str, genre: &str, year: usize) -> Tag {
    let mut tag = Tag::new();
    tag.set_artist(artist);
    tag.set_title(title);
    tag.set_genre(genre);
    tag.set_year(year);
    tag
}

fn song_of(tag: Tag) -> SongFile {
    match SongFile::make(tag, "music/song.mp3") {
        Ok(song) => song,
        Err(error) => panic!("no song file: {:?}", error),
    }
}

#[test]
fn make_keeps_path_and_lowers_extension() {
    let song = match SongFile::make(Tag::new(), "Music/Album/Song.MP3") {
        Ok(song) => song,
        Err(error) => panic!("no song file: {:?}", error),
    };
    assert_eq!(song.get_extension(), "mp3");
    assert_eq!(song.get_filepath_str(), Some("Music/Album/Song.MP3"));
}

#[test]
fn make_takes_the_last_extension() {
    let song = match SongFile::make(Tag::new(), "archive.tar.Flac") {
        Ok(song) => song,
        Err(error) => panic!("no song file: {:?}", error),
    };
    assert_eq!(song.get_extension(), "flac");
}

#[test]
fn make_lowers_letters_beyond_ascii() {
    let song = match SongFile::make(Tag::new(), "song.\u{c4}\u{d6}3") {
        Ok(song) => song,
        Err(error) => panic!("no song file: {:?}", error),
    };
    assert_eq!(song.get_extension(), "\u{e4}\u{f6}3");
}

#[test]
fn make_keeps_the_tag() {
    let song = song_of(tag_of("A", "T", "Pop", 1990));
    assert_eq!(song.metadata.artist(), Some("A"));
    assert_eq!(song.metadata.title(), Some("T"));
    assert_eq!(song.metadata.genre(), Some("Pop"));
    assert_eq!(song.metadata.year(), Some(1990));
    assert_eq!(song.metadata.frames().len(), 4);
}

#[test]
fn make_refuses_a_path_without_extension() {
    assert!(matches!(SongFile::make(Tag::new(), "music/song"), Err(SongError::Extension)));
    assert!(matches!(SongFile::make(Tag::new(), ""), Err(SongError::Extension)));
    assert!(matches!(SongFile::make(Tag::new(), "music.d/song"), Err(SongError::Extension)));
    assert!(matches!(SongFile::make(Tag::new(), "music/.hidden"), Err(SongError::Extension)));
    assert!(matches!(SongFile::make(Tag::new(), "music/.."), Err(SongError::Extension)));
}

#[test]
fn make_accepts_an_empty_extension() {
    let song = match SongFile::make(Tag::new(), "music/song.") {
        Ok(song) => song,
        Err(error) => panic!("no song file: {:?}", error),
    };
    assert_eq!(song.get_extension(), "");
}

#[test]
fn with_extension_lowers_what_it_is_given() {
    let song = match SongFile::with_extension(Tag::new(), Some("OGG"), "somewhere") {
        Ok(song) => song,
        Err(error) => panic!("no song file: {:?}", error),
    };
    assert_eq!(song.get_extension(), "ogg");
    assert_eq!(song.get_filepath_str(), Some("somewhere"));
}

#[test]
fn with_extension_refuses_none() {
    assert!(matches!(
        SongFile::with_extension(Tag::new(), None, "song.mp3"),
        Err(SongError::Extension)
    ));
}

#[test]
fn complete_tag_is_complete() {
    assert!(song_of(tag_of("A", "T", "Pop", 1990)).is_metadata_complete());
}

#[test]
fn numeric_genre_code_is_incomplete() {
    assert!(!song_of(tag_of("A", "T", "(3)Pop", 1990)).is_metadata_complete());
}

#[test]
fn empty_tag_is_incomplete() {
    assert!(!song_of(Tag::new()).is_metadata_complete());
}

#[test]
fn empty_artist_and_title_are_incomplete() {
    assert!(!song_of(tag_of("", "", "Pop", 1990)).is_metadata_complete());
    let mut tag = Tag::new();
    tag.set_genre("Pop");
    tag.set_year(1990);
    assert!(!song_of(tag).is_metadata_complete());
}

#[test]
fn each_required_field_is_required() {
    let mut tag = tag_of("A", "T", "Pop", 1990);
    tag.remove_artist();
    assert!(!song_of(tag).is_metadata_complete());
    let mut tag = tag_of("A", "T", "Pop", 1990);
    tag.remove_title();
    assert!(!song_of(tag).is_metadata_complete());
    let mut tag = tag_of("A", "T", "Pop", 1990);
    tag.remove_genre();
    assert!(!song_of(tag).is_metadata_complete());
    let mut tag = tag_of("A", "T", "Pop", 1990);
    tag.remove("TYER");
    assert!(!song_of(tag).is_metadata_complete());
}

#[test]
fn year_decides_at_1800() {
    assert!(!song_of(tag_of("A", "T", "Pop", 0)).is_metadata_complete());
    assert!(!song_of(tag_of("A", "T", "Pop", 1800)).is_metadata_complete());
    assert!(song_of(tag_of("A", "T", "Pop", 1801)).is_metadata_complete());
}

#[test]
fn year_that_is_no_number_is_incomplete() {
    let mut tag = tag_of("A", "T", "Pop", 1990);
    tag.remove("TYER");
    let mut frame = Frame::new("TYER");
    frame.content = Content::Text("nineteen ninety".to_owned());
    tag.push(frame);
    assert!(!song_of(tag).is_metadata_complete());
}

#[test]
fn recorded_date_is_no_year() {
    let mut tag = Tag::new();
    tag.set_artist("A");
    tag.set_title("T");
    tag.set_genre("Pop");
    tag.add_text_frame("TDRC", "1990");
    assert!(!song_of(tag).is_metadata_complete());
}

#[test]
fn first_frame_of_a_kind_counts() {
    let mut tag = Tag::new();
    tag.push(Frame::new("TPE1"));
    let mut frame = Frame::new("TPE1");
    frame.content = Content::Text("A".to_owned());
    tag.push(frame);
    tag.set_title("T");
    tag.set_genre("Pop");
    tag.set_year(1990);
    assert!(!song_of(tag).is_metadata_complete());
}

#[test]
fn old_format_uses_short_identifiers() {
    let mut tag = Tag::with_version(2);
    tag.set_artist("A");
    tag.set_title("T");
    tag.set_genre("Pop");
    tag.set_year(1990);
    assert!(tag.get("TP1").is_some());
    assert!(tag.get("TPE1").is_none());
    assert!(song_of(tag).is_metadata_complete());
    let mut tag = Tag::with_version(2);
    tag.add_text_frame("TPE1", "A");
    tag.set_title("T");
    tag.set_genre("Pop");
    tag.set_year(1990);
    assert!(!song_of(tag).is_metadata_complete());
}

#[test]
fn display_shows_every_field() {
    let mut tag = tag_of("A", "T", "Pop", 1990);
    tag.set_album("X");
    let song = song_of(tag);
    assert_eq!(
        song.display(),
        "\nTitle: T\nArtist: A\nAlbum: X\nGenre: Pop\nYear: 1990\nPath:music/song.mp3"
    );
}

#[test]
fn display_marks_what_is_missing() {
    let song = song_of(Tag::new());
    assert_eq!(
        song.display(),
        "\nTitle: not available\nArtist: not available\nAlbum: not available\nGenre: not available\nYear: 0\nPath:music/song.mp3"
    );
}

#[test]
fn display_changes_nothing() {
    let song = song_of(tag_of("A", "T", "Pop", 1990));
    let first = song.display();
    let second = song.display();
    assert_eq!(first, second);
    assert_eq!(song.metadata.frames().len(), 4);
}
