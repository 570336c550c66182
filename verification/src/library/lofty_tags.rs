//! A parsed audio file's tag read into `TagFields`, and a `TagWritePlan`
//! applied to it, through the tag library's accessors.

use lofty::file::{AudioFile, TaggedFile, TaggedFileExt};
use lofty::tag::items::Timestamp;
use lofty::tag::{Accessor, ItemKey, Tag};
use vstd::prelude::*;

use crate::library::tag_io::{
    after_write, blank_fields, lemma_dec_digits, lemma_write_then_read, non_empty, plan_of,
    tags_from_fields_spec, tags_storable, text_or, GenreWrite, TagFields, TagWritePlan,
};
use crate::library::tags::{opt_view, TagsView, TrackTags};
use crate::text::{dec_nat, parse_u32_spec};

verus! {

/// The free-text items the library reads or writes besides the accessors.
#[derive(Debug, Clone, Copy, PartialEq, Eq, Structural)]
pub enum TextKey {
    Comment,
    Description,
    Label,
    Isrc,
    Composer,
}

/// The items of a tag that the library reads or writes, by the tag
/// library's item keys.
pub enum TagItemKey {
    TrackTitle,
    TrackArtist,
    AlbumTitle,
    Genre,
    TrackNumber,
    TrackTotal,
    DiscNumber,
    DiscTotal,
    RecordingDate,
    Year,
    Comment,
    Description,
    Label,
    Isrc,
    Composer,
}

/// What a tag holds as text: for each item key, the text of the tag's
/// first item with that key, where that item holds text (`Tag::get_string`).
pub uninterp spec fn tag_texts(tag: Tag) -> Map<TagItemKey, Seq<char>>;

/// The year of the date that the tag library's relaxed timestamp parse
/// reads from a text, if it reads one (`Timestamp::parse`).
pub uninterp spec fn timestamp_year(text: Seq<char>) -> Option<u32>;

/// The type of a tag, as a number that tells the tag library's tag types
/// apart (the tag it was made with, `Tag::tag_type`).
pub uninterp spec fn tag_kind(tag: Tag) -> int;

/// The data of a tag's pictures, in order (`Tag::pictures`).
pub uninterp spec fn tag_pictures(tag: Tag) -> Seq<Seq<u8>>;

/// What a parsed file holds: each of its tags in order (`tags`), as its
/// type, its texts and the data of its pictures.
pub uninterp spec fn tagged_tags(tagged: TaggedFile) -> Seq<(int, Map<TagItemKey, Seq<char>>, Seq<Seq<u8>>)>;

/// The primary tag type of the parsed file's file type (what it was made
/// with).
pub uninterp spec fn tagged_primary_kind(tagged: TaggedFile) -> int;

/// The tag types that the parsed file's file type can read.
pub uninterp spec fn tagged_readable_kinds(tagged: TaggedFile) -> Set<int>;

/// The duration of the parsed file's audio, in whole seconds.
pub uninterp spec fn tagged_duration_secs(tagged: TaggedFile) -> u64;

/// Whether an item with `key` may be stored in a tag of type `kind`
/// (`TagItem::re_map`: the key maps to that tag type).
pub uninterp spec fn key_maps(kind: int, key: TagItemKey) -> bool;

/// A tag as the model holds it.
pub open spec fn tag_entry(t: Tag) -> (int, Map<TagItemKey, Seq<char>>, Seq<Seq<u8>>) {
    (tag_kind(t), tag_texts(t), tag_pictures(t))
}

/// The position of the first tag of type `kind` (`TaggedFileExt::tag`).
pub open spec fn first_of_kind(tags: Seq<(int, Map<TagItemKey, Seq<char>>, Seq<Seq<u8>>)>, kind: int) -> Option<int>
    decreases tags.len(),
{
    if tags.len() == 0 {
        None
    } else if tags[0].0 == kind {
        Some(0)
    } else {
        match first_of_kind(tags.drop_first(), kind) {
            Some(i) => Some(i + 1),
            None => None,
        }
    }
}

/// The first tag of type `kind` is one, and no tag before it has that
/// type; without one, no tag has it.
pub proof fn lemma_first_of_kind(tags: Seq<(int, Map<TagItemKey, Seq<char>>, Seq<Seq<u8>>)>, kind: int)
    ensures
        first_of_kind(tags, kind) matches Some(i) ==> 0 <= i < tags.len() && tags[i].0 == kind && forall|j: int|
            0 <= j < i ==> tags[j].0 != kind,
        first_of_kind(tags, kind) is None ==> forall|j: int| 0 <= j < tags.len() ==> tags[j].0 != kind,
    decreases tags.len(),
{
    if tags.len() > 0 && tags[0].0 != kind {
        lemma_first_of_kind(tags.drop_first(), kind);
        assert forall|j: int| 1 <= j < tags.len() implies tags[j] == tags.drop_first()[j - 1] by {}
    }
}

/// The tags without the first one of type `kind` (`TaggedFile::remove`).
pub open spec fn without_first_of_kind(tags: Seq<(int, Map<TagItemKey, Seq<char>>, Seq<Seq<u8>>)>, kind: int) -> Seq<
    (int, Map<TagItemKey, Seq<char>>, Seq<Seq<u8>>),
> {
    match first_of_kind(tags, kind) {
        Some(i) => tags.remove(i),
        None => tags,
    }
}

/// A text stored under `key` in a tag of type `kind` (`Tag::insert`): it
/// replaces the key's items where the key maps to that type, else nothing
/// changes.
pub open spec fn put_text(texts: Map<TagItemKey, Seq<char>>, kind: int, key: TagItemKey, v: Seq<char>) -> Map<
    TagItemKey,
    Seq<char>,
> {
    if key_maps(kind, key) {
        texts.insert(key, v)
    } else {
        texts
    }
}

/// `Timestamp`'s text for a date holding only the year: the year with at
/// least four digits (`{:04}`).
pub open spec fn year_text(year: u16) -> Seq<char> {
    let d = dec_nat(year as nat);
    if d.len() >= 4 {
        d
    } else {
        Seq::new((4 - d.len()) as nat, |i: int| '0') + d
    }
}

/// `TaggedFileExt::tags` of a parsed file, its first tag cloned.
#[verifier::external_body]
fn first_tag_clone(tagged: &TaggedFile) -> (r: Option<Tag>)
    ensures
        tagged_tags(*tagged).len() == 0 <==> r is None,
        r matches Some(t) ==> tag_entry(t) == tagged_tags(*tagged)[0],
{
    tagged.tags().first().cloned()
}

/// `TaggedFileExt::primary_tag`, cloned: the file's first tag of its
/// primary type, if it has one.
#[verifier::external_body]
pub(crate) fn primary_tag_clone(tagged: &TaggedFile) -> (r: Option<Tag>)
    ensures
        first_of_kind(tagged_tags(*tagged), tagged_primary_kind(*tagged)) is None <==> r is None,
        r matches Some(t) ==> first_of_kind(tagged_tags(*tagged), tagged_primary_kind(*tagged)) matches Some(i)
            && tag_entry(t) == tagged_tags(*tagged)[i],
{
    tagged.primary_tag().cloned()
}

/// `Tag::new` of the file's primary tag type (`primary_tag_type`): an
/// empty tag.
#[verifier::external_body]
pub(crate) fn new_primary_tag(tagged: &TaggedFile) -> (r: Tag)
    ensures
        tag_entry(r) == (tagged_primary_kind(*tagged), Map::<TagItemKey, Seq<char>>::empty(), Seq::<Seq<u8>>::empty()),
{
    Tag::new(tagged.primary_tag_type())
}

/// `TaggedFileExt::insert_tag`: where the file type can read the tag's
/// type, the first tag of that type leaves and the tag is added last;
/// otherwise nothing changes.
#[verifier::external_body]
pub(crate) fn insert_tag(tagged: &mut TaggedFile, tag: Tag)
    ensures
        tagged_primary_kind(*final(tagged)) == tagged_primary_kind(*old(tagged)),
        tagged_readable_kinds(*final(tagged)) == tagged_readable_kinds(*old(tagged)),
        tagged_duration_secs(*final(tagged)) == tagged_duration_secs(*old(tagged)),
        tagged_readable_kinds(*old(tagged)).contains(tag_kind(tag)) ==> tagged_tags(*final(tagged))
            == without_first_of_kind(tagged_tags(*old(tagged)), tag_kind(tag)).push(tag_entry(tag)),
        !tagged_readable_kinds(*old(tagged)).contains(tag_kind(tag)) ==> tagged_tags(*final(tagged))
            == tagged_tags(*old(tagged)),
{
    let _ = tagged.insert_tag(tag);
}

pub open spec fn opt_text(o: Option<String>) -> Option<Seq<char>> {
    match o {
        Some(s) => Some(s@),
        None => None,
    }
}

/// A number item as the accessors read it: its text parsed as `u32`.
pub open spec fn number_item(texts: Map<TagItemKey, Seq<char>>, key: TagItemKey) -> Option<u32> {
    match texts.get(key) {
        Some(t) => parse_u32_spec(t),
        None => None,
    }
}

/// The year as `Accessor::date` reads it: from the recording date, else
/// from the year item.
pub open spec fn year_item(texts: Map<TagItemKey, Seq<char>>) -> Option<u32> {
    match texts.get(TagItemKey::RecordingDate) {
        Some(t) => timestamp_year(t),
        None => match texts.get(TagItemKey::Year) {
            Some(t) => timestamp_year(t),
            None => None,
        },
    }
}

/// `Accessor::title` (the first `TrackTitle` item's text), owned.
#[verifier::external_body]
fn tag_title(tag: &Tag) -> (r: Option<String>)
    ensures
        opt_text(r) == tag_texts(*tag).get(TagItemKey::TrackTitle),
{
    tag.title().map(|s| s.to_string())
}

/// `Accessor::artist` (the first `TrackArtist` item's text), owned.
#[verifier::external_body]
fn tag_artist(tag: &Tag) -> (r: Option<String>)
    ensures
        opt_text(r) == tag_texts(*tag).get(TagItemKey::TrackArtist),
{
    tag.artist().map(|s| s.to_string())
}

/// `Accessor::album` (the first `AlbumTitle` item's text), owned.
#[verifier::external_body]
fn tag_album(tag: &Tag) -> (r: Option<String>)
    ensures
        opt_text(r) == tag_texts(*tag).get(TagItemKey::AlbumTitle),
{
    tag.album().map(|s| s.to_string())
}

/// `Accessor::genre` (the first `Genre` item's text), owned.
#[verifier::external_body]
fn tag_genre(tag: &Tag) -> (r: Option<String>)
    ensures
        opt_text(r) == tag_texts(*tag).get(TagItemKey::Genre),
{
    tag.genre().map(|s| s.to_string())
}

/// `Accessor::track`: the `TrackNumber` text parsed as `u32`.
#[verifier::external_body]
fn tag_track(tag: &Tag) -> (r: Option<u32>)
    ensures
        r == number_item(tag_texts(*tag), TagItemKey::TrackNumber),
{
    tag.track()
}

/// `Accessor::track_total`: the `TrackTotal` text parsed as `u32`.
#[verifier::external_body]
fn tag_track_total(tag: &Tag) -> (r: Option<u32>)
    ensures
        r == number_item(tag_texts(*tag), TagItemKey::TrackTotal),
{
    tag.track_total()
}

/// `Accessor::disk`: the `DiscNumber` text parsed as `u32`.
#[verifier::external_body]
fn tag_disk(tag: &Tag) -> (r: Option<u32>)
    ensures
        r == number_item(tag_texts(*tag), TagItemKey::DiscNumber),
{
    tag.disk()
}

/// `Accessor::disk_total`: the `DiscTotal` text parsed as `u32`.
#[verifier::external_body]
fn tag_disk_total(tag: &Tag) -> (r: Option<u32>)
    ensures
        r == number_item(tag_texts(*tag), TagItemKey::DiscTotal),
{
    tag.disk_total()
}

/// `Accessor::date`, its year field widened to `u32`: the recording date's
/// text, else the year item's, read as a timestamp.
#[verifier::external_body]
fn tag_year(tag: &Tag) -> (r: Option<u32>)
    ensures
        r == year_item(tag_texts(*tag)),
        tag_texts(*tag).get(TagItemKey::RecordingDate) matches Some(t) ==> r == timestamp_year(t),
{
    tag.date().map(|d| u32::from(d.year))
}

pub open spec fn text_item_key(key: TextKey) -> TagItemKey {
    match key {
        TextKey::Comment => TagItemKey::Comment,
        TextKey::Description => TagItemKey::Description,
        TextKey::Label => TagItemKey::Label,
        TextKey::Isrc => TagItemKey::Isrc,
        TextKey::Composer => TagItemKey::Composer,
    }
}

/// `Tag::get_string` for one of the text items (converted variant by
/// variant to the tag library's item keys), as an owned string.
#[verifier::external_body]
fn tag_text(tag: &Tag, key: TextKey) -> (r: Option<String>)
    ensures
        opt_text(r) == tag_texts(*tag).get(text_item_key(key)),
{
    let item = match key {
        TextKey::Comment => ItemKey::Comment,
        TextKey::Description => ItemKey::Description,
        TextKey::Label => ItemKey::Label,
        TextKey::Isrc => ItemKey::Isrc,
        TextKey::Composer => ItemKey::Composer,
    };
    tag.get_string(item).map(|s| s.to_string())
}

/// `AudioFile::properties` of a parsed file: its duration in whole seconds.
#[verifier::external_body]
fn duration_secs(tagged: &TaggedFile) -> (r: u64)
    ensures
        r == tagged_duration_secs(*tagged),
{
    tagged.properties().duration().as_secs()
}

/// `Accessor::set_title`.
#[verifier::external_body]
fn set_title(tag: &mut Tag, value: String)
    ensures
        tag_kind(*final(tag)) == tag_kind(*old(tag)),
        tag_pictures(*final(tag)) == tag_pictures(*old(tag)),
        tag_texts(*final(tag)) == put_text(tag_texts(*old(tag)), tag_kind(*old(tag)), TagItemKey::TrackTitle, value@),
{
    tag.set_title(value)
}

/// `Accessor::set_artist`.
#[verifier::external_body]
fn set_artist(tag: &mut Tag, value: String)
    ensures
        tag_kind(*final(tag)) == tag_kind(*old(tag)),
        tag_pictures(*final(tag)) == tag_pictures(*old(tag)),
        tag_texts(*final(tag)) == put_text(tag_texts(*old(tag)), tag_kind(*old(tag)), TagItemKey::TrackArtist, value@),
{
    tag.set_artist(value)
}

/// `Accessor::set_album`.
#[verifier::external_body]
fn set_album(tag: &mut Tag, value: String)
    ensures
        tag_kind(*final(tag)) == tag_kind(*old(tag)),
        tag_pictures(*final(tag)) == tag_pictures(*old(tag)),
        tag_texts(*final(tag)) == put_text(tag_texts(*old(tag)), tag_kind(*old(tag)), TagItemKey::AlbumTitle, value@),
{
    tag.set_album(value)
}

/// `Accessor::set_genre`.
#[verifier::external_body]
fn set_genre(tag: &mut Tag, value: String)
    ensures
        tag_kind(*final(tag)) == tag_kind(*old(tag)),
        tag_pictures(*final(tag)) == tag_pictures(*old(tag)),
        tag_texts(*final(tag)) == put_text(tag_texts(*old(tag)), tag_kind(*old(tag)), TagItemKey::Genre, value@),
{
    tag.set_genre(value)
}

/// `Accessor::remove_genre`: every `Genre` item leaves.
#[verifier::external_body]
fn remove_genre(tag: &mut Tag)
    ensures
        tag_kind(*final(tag)) == tag_kind(*old(tag)),
        tag_pictures(*final(tag)) == tag_pictures(*old(tag)),
        tag_texts(*final(tag)) == tag_texts(*old(tag)).remove(TagItemKey::Genre),
{
    tag.remove_genre()
}

/// `Accessor::set_track`.
#[verifier::external_body]
fn set_track(tag: &mut Tag, value: u32)
    ensures
        tag_kind(*final(tag)) == tag_kind(*old(tag)),
        tag_pictures(*final(tag)) == tag_pictures(*old(tag)),
        tag_texts(*final(tag)) == put_text(tag_texts(*old(tag)), tag_kind(*old(tag)), TagItemKey::TrackNumber, dec_nat(value as nat)),
{
    tag.set_track(value)
}

/// `Accessor::set_track_total`.
#[verifier::external_body]
fn set_track_total(tag: &mut Tag, value: u32)
    ensures
        tag_kind(*final(tag)) == tag_kind(*old(tag)),
        tag_pictures(*final(tag)) == tag_pictures(*old(tag)),
        tag_texts(*final(tag)) == put_text(tag_texts(*old(tag)), tag_kind(*old(tag)), TagItemKey::TrackTotal, dec_nat(value as nat)),
{
    tag.set_track_total(value)
}

/// `Accessor::set_disk`.
#[verifier::external_body]
fn set_disk(tag: &mut Tag, value: u32)
    ensures
        tag_kind(*final(tag)) == tag_kind(*old(tag)),
        tag_pictures(*final(tag)) == tag_pictures(*old(tag)),
        tag_texts(*final(tag)) == put_text(tag_texts(*old(tag)), tag_kind(*old(tag)), TagItemKey::DiscNumber, dec_nat(value as nat)),
{
    tag.set_disk(value)
}

/// `Accessor::set_disk_total`.
#[verifier::external_body]
fn set_disk_total(tag: &mut Tag, value: u32)
    ensures
        tag_kind(*final(tag)) == tag_kind(*old(tag)),
        tag_pictures(*final(tag)) == tag_pictures(*old(tag)),
        tag_texts(*final(tag)) == put_text(tag_texts(*old(tag)), tag_kind(*old(tag)), TagItemKey::DiscTotal, dec_nat(value as nat)),
{
    tag.set_disk_total(value)
}

/// `Accessor::set_date` with a date that holds only the year: the `Year`
/// items leave and the date's text (the year with at least four digits) is
/// stored as the recording date. A year of at most four digits reads back
/// from that text.
#[verifier::external_body]
fn set_year(tag: &mut Tag, year: u16)
    ensures
        tag_kind(*final(tag)) == tag_kind(*old(tag)),
        tag_pictures(*final(tag)) == tag_pictures(*old(tag)),
        tag_texts(*final(tag)) == put_text(
            tag_texts(*old(tag)).remove(TagItemKey::Year),
            tag_kind(*old(tag)),
            TagItemKey::RecordingDate,
            year_text(year),
        ),
        (year <= 9999 && key_maps(tag_kind(*old(tag)), TagItemKey::RecordingDate)) ==> timestamp_year(
            tag_texts(*final(tag))[TagItemKey::RecordingDate],
        ) == Some(year as u32),
{
    tag.set_date(Timestamp { year, ..Timestamp::default() })
}

/// `Tag::insert_text` for one of the text items (converted variant by
/// variant to the tag library's item keys).
#[verifier::external_body]
fn insert_text(tag: &mut Tag, key: TextKey, value: String)
    ensures
        tag_kind(*final(tag)) == tag_kind(*old(tag)),
        tag_pictures(*final(tag)) == tag_pictures(*old(tag)),
        tag_texts(*final(tag)) == put_text(tag_texts(*old(tag)), tag_kind(*old(tag)), text_item_key(key), value@),
{
    let item = match key {
        TextKey::Comment => ItemKey::Comment,
        TextKey::Description => ItemKey::Description,
        TextKey::Label => ItemKey::Label,
        TextKey::Isrc => ItemKey::Isrc,
        TextKey::Composer => ItemKey::Composer,
    };
    let _ = tag.insert_text(item, value);
}

/// What the library reads from a tag, as text.
pub open spec fn fields_read(r: TagFields, texts: Map<TagItemKey, Seq<char>>) -> bool {
    &&& opt_text(r.title) == texts.get(TagItemKey::TrackTitle)
    &&& opt_text(r.artist) == texts.get(TagItemKey::TrackArtist)
    &&& opt_text(r.album) == texts.get(TagItemKey::AlbumTitle)
    &&& r.track == number_item(texts, TagItemKey::TrackNumber)
    &&& r.year == year_item(texts)
    &&& r.disk == number_item(texts, TagItemKey::DiscNumber)
    &&& r.track_total == number_item(texts, TagItemKey::TrackTotal)
    &&& r.disk_total == number_item(texts, TagItemKey::DiscTotal)
    &&& opt_text(r.genre) == texts.get(TagItemKey::Genre)
    &&& opt_text(r.comment) == texts.get(TagItemKey::Comment)
    &&& opt_text(r.description) == texts.get(TagItemKey::Description)
    &&& opt_text(r.label) == texts.get(TagItemKey::Label)
    &&& opt_text(r.isrc) == texts.get(TagItemKey::Isrc)
    &&& opt_text(r.composer) == texts.get(TagItemKey::Composer)
}

/// The fields the library reads from a tag: the texts of title, artist,
/// album and genre, the numbers parsed from their items, the year of the
/// date, and the free-text items.
pub fn tag_fields_of(tag: &Tag) -> (r: TagFields)
    ensures
        fields_read(r, tag_texts(*tag)),
{
    TagFields {
        title: tag_title(tag),
        artist: tag_artist(tag),
        album: tag_album(tag),
        track: tag_track(tag),
        year: tag_year(tag),
        disk: tag_disk(tag),
        track_total: tag_track_total(tag),
        disk_total: tag_disk_total(tag),
        genre: tag_genre(tag),
        comment: tag_text(tag, TextKey::Comment),
        description: tag_text(tag, TextKey::Description),
        label: tag_text(tag, TextKey::Label),
        isrc: tag_text(tag, TextKey::Isrc),
        composer: tag_text(tag, TextKey::Composer),
    }
}

/// The texts of a tag of type `kind` once `plan` is written into it, in
/// the order the plan is written: title, artist and album; the track
/// number; the year as the recording date (the year items leave; a year
/// beyond 16 bits is not written); disc number, track total and disc total;
/// the genre as the plan says; then comment, label, ISRC and composer.
pub open spec fn plan_texts(m: Map<TagItemKey, Seq<char>>, plan: TagWritePlan, kind: int) -> Map<
    TagItemKey,
    Seq<char>,
> {
    let m1 = put_text(m, kind, TagItemKey::TrackTitle, plan.title@);
    let m2 = put_text(m1, kind, TagItemKey::TrackArtist, plan.artist@);
    let m3 = put_text(m2, kind, TagItemKey::AlbumTitle, plan.album@);
    let m4 = put_number(m3, kind, TagItemKey::TrackNumber, plan.track);
    let m5 = match plan.year {
        Some(y) => if y <= 65535 {
            put_text(m4.remove(TagItemKey::Year), kind, TagItemKey::RecordingDate, year_text(y as u16))
        } else {
            m4
        },
        None => m4,
    };
    let m6 = put_number(m5, kind, TagItemKey::DiscNumber, plan.disk);
    let m7 = put_number(m6, kind, TagItemKey::TrackTotal, plan.track_total);
    let m8 = put_number(m7, kind, TagItemKey::DiscTotal, plan.disk_total);
    let m9 = match plan.genre {
        GenreWrite::Assign(g) => put_text(m8, kind, TagItemKey::Genre, g@),
        GenreWrite::Remove => m8.remove(TagItemKey::Genre),
        GenreWrite::Keep => m8,
    };
    let m10 = put_opt(m9, kind, TagItemKey::Comment, plan.comment);
    let m11 = put_opt(m10, kind, TagItemKey::Label, plan.label);
    let m12 = put_opt(m11, kind, TagItemKey::Isrc, plan.isrc);
    put_opt(m12, kind, TagItemKey::Composer, plan.composer)
}

pub open spec fn put_number(m: Map<TagItemKey, Seq<char>>, kind: int, key: TagItemKey, n: Option<u32>) -> Map<
    TagItemKey,
    Seq<char>,
> {
    match n {
        Some(v) => put_text(m, kind, key, dec_nat(v as nat)),
        None => m,
    }
}

pub open spec fn put_opt(m: Map<TagItemKey, Seq<char>>, kind: int, key: TagItemKey, t: Option<String>) -> Map<
    TagItemKey,
    Seq<char>,
> {
    match t {
        Some(v) => put_text(m, kind, key, v@),
        None => m,
    }
}

/// The texts and pictures of a file's primary tag, or none for a file
/// without one.
pub open spec fn primary_base(tags: Seq<(int, Map<TagItemKey, Seq<char>>, Seq<Seq<u8>>)>, kind: int) -> (
    Map<TagItemKey, Seq<char>>,
    Seq<Seq<u8>>,
) {
    match first_of_kind(tags, kind) {
        Some(i) => (tags[i].1, tags[i].2),
        None => (Map::empty(), Seq::empty()),
    }
}

/// The tags of a file once a tag of its primary type `kind` with `texts`
/// and `pictures` is inserted (where the file type reads that type).
pub open spec fn with_primary(
    tags: Seq<(int, Map<TagItemKey, Seq<char>>, Seq<Seq<u8>>)>,
    readable: Set<int>,
    kind: int,
    texts: Map<TagItemKey, Seq<char>>,
    pictures: Seq<Seq<u8>>,
) -> Seq<(int, Map<TagItemKey, Seq<char>>, Seq<Seq<u8>>)> {
    if readable.contains(kind) {
        without_first_of_kind(tags, kind).push((kind, texts, pictures))
    } else {
        tags
    }
}

/// What a parsed file gives the tag reader: the fields of its primary tag,
/// else of its first tag, if it has any; and its duration in seconds.
pub fn read_tagged_fields(tagged: &TaggedFile) -> (r: (Option<TagFields>, u64))
    ensures
        r.1 == tagged_duration_secs(*tagged),
        ({
            let tags = tagged_tags(*tagged);
            match first_of_kind(tags, tagged_primary_kind(*tagged)) {
                Some(i) => r.0 matches Some(f) && fields_read(f, tags[i].1),
                None => if tags.len() > 0 {
                    r.0 matches Some(f) && fields_read(f, tags[0].1)
                } else {
                    r.0 is None
                },
            }
        }),
{
    let tag = match primary_tag_clone(tagged) {
        Some(t) => Some(t),
        None => first_tag_clone(tagged),
    };
    let fields = match &tag {
        Some(t) => Some(tag_fields_of(t)),
        None => None,
    };
    (fields, duration_secs(tagged))
}

/// Every item key a write plan stores maps to tag type `kind`.
pub open spec fn plan_keys_map(kind: int) -> bool {
    &&& key_maps(kind, TagItemKey::TrackTitle)
    &&& key_maps(kind, TagItemKey::TrackArtist)
    &&& key_maps(kind, TagItemKey::AlbumTitle)
    &&& key_maps(kind, TagItemKey::TrackNumber)
    &&& key_maps(kind, TagItemKey::RecordingDate)
    &&& key_maps(kind, TagItemKey::DiscNumber)
    &&& key_maps(kind, TagItemKey::TrackTotal)
    &&& key_maps(kind, TagItemKey::DiscTotal)
    &&& key_maps(kind, TagItemKey::Genre)
    &&& key_maps(kind, TagItemKey::Comment)
    &&& key_maps(kind, TagItemKey::Label)
    &&& key_maps(kind, TagItemKey::Isrc)
    &&& key_maps(kind, TagItemKey::Composer)
}

/// Two sets of tag fields hold the same texts and numbers.
pub open spec fn reads_as(a: TagFields, b: TagFields) -> bool {
    &&& opt_text(a.title) == opt_text(b.title)
    &&& opt_text(a.artist) == opt_text(b.artist)
    &&& opt_text(a.album) == opt_text(b.album)
    &&& a.track == b.track
    &&& a.year == b.year
    &&& a.disk == b.disk
    &&& a.track_total == b.track_total
    &&& a.disk_total == b.disk_total
    &&& opt_text(a.genre) == opt_text(b.genre)
    &&& opt_text(a.comment) == opt_text(b.comment)
    &&& opt_text(a.description) == opt_text(b.description)
    &&& opt_text(a.label) == opt_text(b.label)
    &&& opt_text(a.isrc) == opt_text(b.isrc)
    &&& opt_text(a.composer) == opt_text(b.composer)
}

/// Fields that hold the same texts and numbers give the same track tags.
pub proof fn lemma_reads_as_same_tags(a: TagFields, b: TagFields, path: Seq<char>, d: u64)
    requires
        reads_as(a, b),
    ensures
        tags_from_fields_spec(path, Some(a), d) == tags_from_fields_spec(path, Some(b), d),
{
    assert(opt_view(a.comment) == opt_view(b.comment));
    assert(opt_view(a.description) == opt_view(b.description));
    assert(opt_view(a.genre) == opt_view(b.genre));
    assert(non_empty(a.label) == non_empty(b.label));
    assert(non_empty(a.isrc) == non_empty(b.isrc));
    assert(non_empty(a.composer) == non_empty(b.composer));
    assert(text_or(a.title, "Unknown Title"@) == text_or(b.title, "Unknown Title"@));
    assert(text_or(a.artist, "Unknown Artist"@) == text_or(b.artist, "Unknown Artist"@));
    assert(text_or(a.album, "Unknown Album"@) == text_or(b.album, "Unknown Album"@));
}

/// A number's decimal text parses back to it.
proof fn lemma_number_text(n: u32)
    ensures
        parse_u32_spec(dec_nat(n as nat)) == Some(n),
{
    lemma_dec_digits(n as nat);
    let s = dec_nat(n as nat);
    assert(crate::text::is_digit(s[0]));
    assert(crate::text::unsigned_body(s) == Some(s));
}

/// Tags written into a file that held no tag of its primary type, and read
/// back, give the tags written (with the duration the file reports).
pub proof fn lemma_tag_write_read_round_trip(path: Seq<char>, t: TrackTags, plan: TagWritePlan, f: TagFields, d: u64)
    requires
        plan_of(plan, t),
        tags_storable(t),
        reads_as(f, after_write(blank_fields(), plan)),
    ensures
        tags_from_fields_spec(path, Some(f), d) == (TagsView {
            duration_sec: if d <= u32::MAX {
                Some(d as u32)
            } else {
                None
            },
            ..t.tags_view()
        }),
{
    lemma_reads_as_same_tags(f, after_write(blank_fields(), plan), path, d);
    lemma_write_then_read(path, t, plan, d);
}

/// With no other tag of type `kind`, a tag of that type added last is the
/// first of its type.
pub proof fn lemma_added_tag_is_first(
    tags: Seq<(int, Map<TagItemKey, Seq<char>>, Seq<Seq<u8>>)>,
    kind: int,
    e: (int, Map<TagItemKey, Seq<char>>, Seq<Seq<u8>>),
)
    requires
        e.0 == kind,
        forall|j: int| 0 <= j < tags.len() ==> tags[j].0 != kind,
    ensures
        first_of_kind(tags.push(e), kind) == Some(tags.len() as int),
    decreases tags.len(),
{
    if tags.len() == 0 {
        assert(tags.push(e)[0] == e);
    } else {
        assert(tags.push(e).drop_first() =~= tags.drop_first().push(e));
        lemma_added_tag_is_first(tags.drop_first(), kind, e);
    }
}

/// At most one tag has type `kind`.
pub open spec fn single_of_kind(tags: Seq<(int, Map<TagItemKey, Seq<char>>, Seq<Seq<u8>>)>, kind: int) -> bool {
    forall|i: int, j: int| 0 <= i < tags.len() && 0 <= j < tags.len() && tags[i].0 == kind && tags[j].0 == kind ==> i == j
}

/// When a file holds at most one tag of its primary type, the primary tag
/// inserted replaces it and is the one read.
pub proof fn lemma_inserted_primary_is_read(
    tags: Seq<(int, Map<TagItemKey, Seq<char>>, Seq<Seq<u8>>)>,
    kind: int,
    e: (int, Map<TagItemKey, Seq<char>>, Seq<Seq<u8>>),
)
    requires
        e.0 == kind,
        single_of_kind(tags, kind),
    ensures
        first_of_kind(without_first_of_kind(tags, kind).push(e), kind) == Some(
            without_first_of_kind(tags, kind).len() as int,
        ),
{
    lemma_first_of_kind(tags, kind);
    let rest = without_first_of_kind(tags, kind);
    match first_of_kind(tags, kind) {
        Some(i) => {
            assert forall|j: int| 0 <= j < rest.len() implies rest[j].0 != kind by {
                if j < i {
                    assert(rest[j] == tags[j]);
                } else {
                    assert(rest[j] == tags[j + 1]);
                }
            }
        },
        None => {},
    }
    lemma_added_tag_is_first(rest, kind, e);
}

pub open spec fn opt_or(o: Option<String>, m: Map<TagItemKey, Seq<char>>, key: TagItemKey) -> Option<Seq<char>> {
    match o {
        Some(v) => Some(v@),
        None => m.get(key),
    }
}

pub open spec fn number_or(n: Option<u32>, m: Map<TagItemKey, Seq<char>>, key: TagItemKey) -> Option<u32> {
    if n is Some {
        n
    } else {
        number_item(m, key)
    }
}

/// What the title, artist, album and number items of the written texts
/// read as.
#[verifier::rlimit(60)]
proof fn lemma_plan_texts_heads(m: Map<TagItemKey, Seq<char>>, plan: TagWritePlan, kind: int)
    requires
        plan_keys_map(kind),
    ensures
        ({
            let w = plan_texts(m, plan, kind);
            &&& w.get(TagItemKey::TrackTitle) == Some(plan.title@)
            &&& w.get(TagItemKey::TrackArtist) == Some(plan.artist@)
            &&& w.get(TagItemKey::AlbumTitle) == Some(plan.album@)
            &&& number_item(w, TagItemKey::TrackNumber) == number_or(plan.track, m, TagItemKey::TrackNumber)
            &&& number_item(w, TagItemKey::DiscNumber) == number_or(plan.disk, m, TagItemKey::DiscNumber)
            &&& number_item(w, TagItemKey::TrackTotal) == number_or(plan.track_total, m, TagItemKey::TrackTotal)
            &&& number_item(w, TagItemKey::DiscTotal) == number_or(plan.disk_total, m, TagItemKey::DiscTotal)
        }),
{
    if plan.track is Some {
        lemma_number_text(plan.track->0);
    }
    if plan.disk is Some {
        lemma_number_text(plan.disk->0);
    }
    if plan.track_total is Some {
        lemma_number_text(plan.track_total->0);
    }
    if plan.disk_total is Some {
        lemma_number_text(plan.disk_total->0);
    }
}

/// What the genre, free-text and year items of the written texts read as.
#[verifier::rlimit(60)]
proof fn lemma_plan_texts_tails(m: Map<TagItemKey, Seq<char>>, plan: TagWritePlan, kind: int)
    requires
        plan_keys_map(kind),
    ensures
        ({
            let w = plan_texts(m, plan, kind);
            &&& w.get(TagItemKey::Genre) == match plan.genre {
                GenreWrite::Assign(g) => Some(g@),
                GenreWrite::Remove => None,
                GenreWrite::Keep => m.get(TagItemKey::Genre),
            }
            &&& w.get(TagItemKey::Comment) == opt_or(plan.comment, m, TagItemKey::Comment)
            &&& w.get(TagItemKey::Description) == m.get(TagItemKey::Description)
            &&& w.get(TagItemKey::Label) == opt_or(plan.label, m, TagItemKey::Label)
            &&& w.get(TagItemKey::Isrc) == opt_or(plan.isrc, m, TagItemKey::Isrc)
            &&& w.get(TagItemKey::Composer) == opt_or(plan.composer, m, TagItemKey::Composer)
            &&& plan.year is None ==> year_item(w) == year_item(m)
        }),
{
}

/// Written texts read back as the plan's fields over the tag's earlier
/// ones, given that the year written reads back.
#[verifier::rlimit(30)]
proof fn lemma_plan_texts_read_back(m: Map<TagItemKey, Seq<char>>, plan: TagWritePlan, kind: int, m5: Map<TagItemKey, Seq<char>>)
    requires
        plan_keys_map(kind),
        plan.year matches Some(y) ==> y <= 9999,
        plan.year matches Some(y) ==> timestamp_year(m5[TagItemKey::RecordingDate]) == Some(y),
        plan.year is Some ==> plan_texts(m, plan, kind)[TagItemKey::RecordingDate] == m5[TagItemKey::RecordingDate],
    ensures
        forall|g: TagFields, f: TagFields|
            fields_read(g, m) && fields_read(f, plan_texts(m, plan, kind)) ==> #[trigger] reads_as(
                f,
                after_write(g, plan),
            ),
{
    let w = plan_texts(m, plan, kind);
    lemma_plan_texts_heads(m, plan, kind);
    lemma_plan_texts_tails(m, plan, kind);
    if plan.year is Some {
        assert(w.contains_key(TagItemKey::RecordingDate));
        assert(year_item(w) == plan.year);
    }
}

/// Write a plan into a parsed file's primary tag (created when missing):
/// title, artist and album always; the numbers the plan gives; the genre as
/// the plan says; and the text items the plan gives. The tag then replaces
/// the file's primary tag. A year too large for the tag library's date is
/// not written.
pub fn apply_tag_write_plan(tagged: &mut TaggedFile, plan: &TagWritePlan)
    ensures
        tagged_primary_kind(*final(tagged)) == tagged_primary_kind(*old(tagged)),
        tagged_readable_kinds(*final(tagged)) == tagged_readable_kinds(*old(tagged)),
        tagged_duration_secs(*final(tagged)) == tagged_duration_secs(*old(tagged)),
        ({
            let tags = tagged_tags(*old(tagged));
            let kind = tagged_primary_kind(*old(tagged));
            let base = primary_base(tags, kind);
            tagged_tags(*final(tagged)) == with_primary(
                tags,
                tagged_readable_kinds(*old(tagged)),
                kind,
                plan_texts(base.0, *plan, kind),
                base.1,
            )
        }),
        ({
            let base = primary_base(tagged_tags(*old(tagged)), tagged_primary_kind(*old(tagged)));
            let kind = tagged_primary_kind(*old(tagged));
            (plan_keys_map(kind) && (plan.year matches Some(y) ==> y <= 9999)) ==> forall|g: TagFields, f: TagFields|
                fields_read(g, base.0) && fields_read(f, plan_texts(base.0, *plan, kind)) ==> #[trigger] reads_as(
                    f,
                    after_write(g, *plan),
                )
        }),
{
    let ghost kind = tagged_primary_kind(*tagged);
    let ghost base = primary_base(tagged_tags(*tagged), kind);
    let found = primary_tag_clone(tagged);
    let mut tag = match found {
        Some(t) => {
            proof {
                lemma_first_of_kind(tagged_tags(*tagged), kind);
            }
            t
        },
        None => new_primary_tag(tagged),
    };
    assert(tag_kind(tag) == kind);
    assert(tag_texts(tag) == base.0);
    assert(tag_pictures(tag) == base.1);
    let ghost m0 = tag_texts(tag);
    set_title(&mut tag, plan.title.clone());
    set_artist(&mut tag, plan.artist.clone());
    set_album(&mut tag, plan.album.clone());
    match plan.track {
        Some(n) => set_track(&mut tag, n),
        None => {},
    }
    let ghost m4 = tag_texts(tag);
    match plan.year {
        Some(y) => if y <= 65535 {
            set_year(&mut tag, y as u16);
        },
        None => {},
    }
    let ghost m5 = tag_texts(tag);
    assert(plan.year matches Some(y) ==> (y <= 9999 && key_maps(kind, TagItemKey::RecordingDate) ==> timestamp_year(
        m5[TagItemKey::RecordingDate],
    ) == Some(y)));
    match plan.disk {
        Some(n) => set_disk(&mut tag, n),
        None => {},
    }
    match plan.track_total {
        Some(n) => set_track_total(&mut tag, n),
        None => {},
    }
    match plan.disk_total {
        Some(n) => set_disk_total(&mut tag, n),
        None => {},
    }
    match &plan.genre {
        GenreWrite::Assign(g) => set_genre(&mut tag, g.clone()),
        GenreWrite::Remove => remove_genre(&mut tag),
        GenreWrite::Keep => {},
    }
    match &plan.comment {
        Some(c) => insert_text(&mut tag, TextKey::Comment, c.clone()),
        None => {},
    }
    match &plan.label {
        Some(v) => insert_text(&mut tag, TextKey::Label, v.clone()),
        None => {},
    }
    match &plan.isrc {
        Some(v) => insert_text(&mut tag, TextKey::Isrc, v.clone()),
        None => {},
    }
    match &plan.composer {
        Some(v) => insert_text(&mut tag, TextKey::Composer, v.clone()),
        None => {},
    }
    assert(tag_texts(tag) == plan_texts(base.0, *plan, kind));
    proof {
        if plan_keys_map(kind) && (plan.year matches Some(y) ==> y <= 9999) {
            lemma_plan_texts_read_back(base.0, *plan, kind, m5);
        }
    }
    insert_tag(tagged, tag);
}

} // verus!
