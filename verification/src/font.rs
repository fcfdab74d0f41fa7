//! Loading a bitmap font: a textual font description plus a raster glyph
//! atlas become a [`Font`] value with per-character metrics.
//!
//! The description names the font, gives its line height and nominal size,
//! and lists one record per glyph: a numeric id, the glyph's pixel rectangle
//! on the atlas, and its placement offsets.  The atlas is a PNG image that
//! must decode to 4-channel (RGBA) pixels.  For each glyph the loader divides
//! the pixel rectangle by the atlas dimensions to obtain normalized texture
//! coordinates, kept here as exact fractions ([`Uv`]) so that every claim
//! about them is a claim about integers.
//!
//! The glyph table is keyed by the low byte of each glyph id, so character
//! codes at 256 and above collapse onto byte-sized keys; that truncation is
//! deliberate, long-standing behaviour.

use vstd::prelude::*;
use std::collections::HashMap;
use crate::GlermError;

verus! {

broadcast use vstd::std_specs::hash::group_hash_axioms;

/// One glyph record as the description lists it: id, atlas-space rectangle,
/// and placement offsets, all in pixels.
#[derive(Clone, Copy, Debug, PartialEq, Eq, Structural)]
pub struct GlyphRecord {
    pub id: i32,
    pub x: i32,
    pub y: i32,
    pub width: i32,
    pub height: i32,
    pub xoffset: i32,
    pub yoffset: i32,
}

/// A decoded font description: global fields plus the glyph records, in no
/// particular order.
pub struct ParsedDescription {
    pub name: String,
    pub line_height: u32,
    pub size: u32,
    pub glyphs: Vec<GlyphRecord>,
}

/// A decoded raster image: dimensions, channel count of its color layout,
/// and the raw pixel bytes.
pub struct DecodedImage {
    pub width: u32,
    pub height: u32,
    pub channels: u8,
    pub pixels: Vec<u8>,
}

/// What parsing a font description returns, as a function of the text alone:
/// the font name, the line height, the nominal size, and a map from glyph id
/// to its `(x, y, width, height, xoffset, yoffset)` record.
pub uninterp spec fn sfl_parse(text: Seq<char>) -> Option<
    (Seq<char>, int, int, Map<int, (int, int, int, int, int, int)>),
>;

/// What decoding a PNG image returns, as a function of the bytes alone:
/// `(width, height, channels, pixels)`.
pub uninterp spec fn png_decode(bytes: Seq<u8>) -> Option<(int, int, int, Seq<u8>)>;

/// The projection of one glyph record to the fields the description map holds.
pub open spec fn record_fields(rec: GlyphRecord) -> (int, int, int, int, int, int) {
    (
        rec.x as int,
        rec.y as int,
        rec.width as int,
        rec.height as int,
        rec.xoffset as int,
        rec.yoffset as int,
    )
}

/// A sequence of glyph records enumerates a description's glyph map exactly:
/// distinct ids, every record present in the map with the same fields, every
/// map entry covered.
pub open spec fn records_match(
    recs: Seq<GlyphRecord>,
    glyphs: Map<int, (int, int, int, int, int, int)>,
) -> bool {
    &&& forall|i: int, j: int| 0 <= i < j < recs.len() ==> recs[i].id != recs[j].id
    &&& forall|i: int|
        0 <= i < recs.len() ==> #[trigger] glyphs.contains_key(recs[i].id as int)
            && glyphs[recs[i].id as int] == record_fields(recs[i])
    &&& forall|k: int|
        #[trigger] glyphs.contains_key(k) ==> exists|i: int|
            0 <= i < recs.len() && (#[trigger] recs[i]).id as int == k
    &&& recs.len() == glyphs.dom().len()
}

/// A parsed description agrees with what the parser returns for `text`.
pub open spec fn parsed_matches(
    p: ParsedDescription,
    s: (Seq<char>, int, int, Map<int, (int, int, int, int, int, int)>),
) -> bool {
    &&& p.name@ == s.0
    &&& p.line_height as int == s.1
    &&& p.size as int == s.2
    &&& records_match(p.glyphs@, s.3)
}

/// A decoded image agrees with what the decoder returns for `bytes`.
pub open spec fn image_matches(img: DecodedImage, d: (int, int, int, Seq<u8>)) -> bool {
    &&& img.width as int == d.0
    &&& img.height as int == d.1
    &&& img.channels as int == d.2
    &&& img.pixels@ == d.3
}

/// Relies on `sfl_parser::BMFont::from_loaded`: parsing a description is a
/// pure function of its text.  The parser keys its character table by glyph
/// id, so the records come back with pairwise distinct ids; their order is
/// whatever the table iteration yields and is not stated.
#[verifier::external_body]
fn parse_description(text: &str) -> (r: Option<ParsedDescription>)
    ensures
        r is Some <==> sfl_parse(text@) is Some,
        r is Some ==> parsed_matches(r->Some_0, sfl_parse(text@)->Some_0),
{
    let loaded = sfl_parser::BMFont::from_loaded(text.to_owned(), String::from("image.png"));
    let bm = match loaded { Ok(b) => b, Err(_) => return None };
    let glyphs = bm.chars.values().map(|c| GlyphRecord {
        id: c.id, x: c.x, y: c.y, width: c.width, height: c.height,
        xoffset: c.xoffset, yoffset: c.yoffset,
    }).collect();
    Some(ParsedDescription { name: bm.font_name, line_height: bm.line_height, size: bm.size, glyphs })
}

/// Relies on `png::Decoder`: decoding an image is a pure function of its
/// bytes.  The channel count comes from the output color layout
/// (`ColorType::samples`); only the 4-channel RGBA layout has four.
#[verifier::external_body]
fn decode_image(bytes: &[u8]) -> (r: Option<DecodedImage>)
    ensures
        r is Some <==> png_decode(bytes@) is Some,
        r is Some ==> image_matches(r->Some_0, png_decode(bytes@)->Some_0),
{
    let decoder = png::Decoder::new(std::io::Cursor::new(bytes));
    let mut reader = match decoder.read_info() { Ok(rd) => rd, Err(_) => return None };
    let size = match reader.output_buffer_size() { Some(s) => s, None => return None };
    let mut pixels = vec![0u8; size];
    let info = match reader.next_frame(&mut pixels) { Ok(i) => i, Err(_) => return None };
    let (color, _depth) = reader.output_color_type();
    let channels = color.samples() as u8;
    Some(DecodedImage { width: info.width, height: info.height, channels, pixels })
}

/// A normalized texture coordinate, kept as the exact fraction
/// `num / den` that dividing a pixel bound by an atlas dimension yields.
#[derive(Clone, Copy, Debug, PartialEq, Eq, Structural)]
pub struct Uv {
    pub num: i64,
    pub den: u32,
}

/// Data of a single character in a [`Font`]: its id, the normalized
/// atlas rectangle `x1..x2` by `y1..y2`, its bitmap size in atlas pixels,
/// and its placement offsets from the grid-cell origin.
#[derive(Clone, Copy, Debug, PartialEq, Eq, Structural)]
pub struct CharacterData {
    pub id: i32,
    pub x1: Uv,
    pub x2: Uv,
    pub y1: Uv,
    pub y2: Uv,
    pub width: i32,
    pub height: i32,
    pub x_off: i32,
    pub y_off: i32,
}

/// The metrics that one glyph record yields on an atlas of the given
/// dimensions: the pixel rectangle divided by the atlas size, as exact
/// fractions.
pub open spec fn glyph_metrics(rec: GlyphRecord, w: u32, h: u32) -> CharacterData {
    CharacterData {
        id: rec.id,
        x1: Uv { num: rec.x as i64, den: w },
        x2: Uv { num: (rec.x + rec.width) as i64, den: w },
        y1: Uv { num: rec.y as i64, den: h },
        y2: Uv { num: (rec.y + rec.height) as i64, den: h },
        width: rec.width,
        height: rec.height,
        x_off: rec.xoffset,
        y_off: rec.yoffset,
    }
}

/// The character table that inserting the records in order produces: each
/// record keyed by the low byte of its id, later records overwriting earlier
/// ones that collapse onto the same byte.
pub open spec fn char_map(glyphs: Seq<GlyphRecord>, w: u32, h: u32) -> Map<u8, CharacterData>
    decreases glyphs.len(),
{
    if glyphs.len() == 0 {
        Map::empty()
    } else {
        char_map(glyphs.drop_last(), w, h).insert(
            glyphs.last().id as u8,
            glyph_metrics(glyphs.last(), w, h),
        )
    }
}

/// `m` is the least `yoffset` among the description's glyphs, or the
/// loader's sentinel value when the description lists none.
pub open spec fn min_offset_matches(
    m: int,
    glyphs: Map<int, (int, int, int, int, int, int)>,
) -> bool {
    if glyphs.dom().len() == 0 {
        m == 100000
    } else {
        &&& exists|k: int| #[trigger] glyphs.contains_key(k) && glyphs[k].5 == m
        &&& forall|k: int| #[trigger] glyphs.contains_key(k) ==> m <= glyphs[k].5
    }
}

/// The loaded font `f` is exactly what the description `s` and the decoded
/// atlas `d` describe: a 4-channel atlas whose buffer length matches its
/// dimensions, the description's global fields, and a character table built
/// from some enumeration of the description's glyph map.
pub open spec fn font_from_description(
    f: Font,
    s: (Seq<char>, int, int, Map<int, (int, int, int, int, int, int)>),
    d: (int, int, int, Seq<u8>),
) -> bool {
    &&& d.2 == 4
    &&& d.3.len() == d.0 * d.1 * 4
    &&& f.name@ == s.0
    &&& f.line_height as int == s.1
    &&& f.size as int == s.2
    &&& f.width as int == d.0
    &&& f.height as int == d.1
    &&& f.image_buffer@ == d.3
    &&& exists|recs: Seq<GlyphRecord>|
        #[trigger] records_match(recs, s.3) && f.characters@ == char_map(recs, f.width, f.height)
    &&& min_offset_matches(f.min_offset_y as int, s.3)
}

/// A loaded font: its name, the raw RGBA atlas buffer with its dimensions,
/// the line metrics, the least glyph `y_off`, and the per-character table
/// keyed by byte-sized character code.
pub struct Font {
    /// The name of the font.
    pub name: String,
    /// The raw RGBA pixel buffer of the atlas.
    pub image_buffer: Vec<u8>,
    /// Atlas width in pixels.
    pub width: u32,
    /// Atlas height in pixels.
    pub height: u32,
    /// Line height of the font.
    pub line_height: u32,
    /// Size of the font (width).
    pub size: u32,
    /// The least `y_off` across all glyphs; used to normalize baselines.
    pub min_offset_y: i32,
    /// The glyph table, keyed by the low byte of each glyph id.
    pub characters: HashMap<u8, CharacterData>,
}

impl Font {
    /// Builds a font from an already-decoded description and atlas image.
    ///
    /// This is the single source of truth for the transformation: every way
    /// of loading a font funnels through it.  It rejects an atlas whose
    /// color layout is not 4-channel, and a pixel buffer whose length does
    /// not equal `width * height * 4`.
    pub fn from_parts(desc: ParsedDescription, image: DecodedImage) -> (r: Result<
        Font,
        GlermError,
    >)
        ensures
            r is Err ==> (r == Err::<Font, GlermError>(GlermError::UnsupportedColorFormat)
                || r == Err::<Font, GlermError>(GlermError::CorruptAsset)),
            (r == Err::<Font, GlermError>(GlermError::UnsupportedColorFormat)) <==> image.channels
                != 4,
            (r == Err::<Font, GlermError>(GlermError::CorruptAsset)) <==> (image.channels == 4
                && image.pixels@.len() != image.width * image.height * 4),
            r is Ok ==> {
                let f = r->Ok_0;
                &&& f.name@ == desc.name@
                &&& f.line_height == desc.line_height
                &&& f.size == desc.size
                &&& f.width == image.width
                &&& f.height == image.height
                &&& f.image_buffer@ == image.pixels@
                &&& f.characters@ == char_map(desc.glyphs@, image.width, image.height)
                &&& (desc.glyphs@.len() == 0 ==> f.min_offset_y == 100000)
                &&& (desc.glyphs@.len() > 0 ==> (exists|i: int|
                    0 <= i < desc.glyphs@.len() && f.min_offset_y == (#[trigger] desc.glyphs@[i]).yoffset)
                    && (forall|i: int|
                    0 <= i < desc.glyphs@.len() ==> f.min_offset_y <= (#[trigger] desc.glyphs@[i]).yoffset))
            },
    {
        if image.channels != 4 {
            return Err(GlermError::UnsupportedColorFormat);
        }
        proof {
            assert((image.width as u128) * (image.height as u128) <= 0xffff_ffff * 0xffff_ffff)
                by (nonlinear_arith)
                requires
                    image.width <= 0xffff_ffffu32,
                    image.height <= 0xffff_ffffu32,
            ;
        }
        let expected: u128 = (image.width as u128) * (image.height as u128) * 4;
        if (image.pixels.len() as u128) != expected {
            return Err(GlermError::CorruptAsset);
        }

        let mut characters: HashMap<u8, CharacterData> = HashMap::new();
        let mut min_off_y: i32 = 100000;
        let mut i: usize = 0;
        while i < desc.glyphs.len()
            invariant
                0 <= i <= desc.glyphs@.len(),
                characters@ == char_map(desc.glyphs@.subrange(0, i as int), image.width, image.height),
                i == 0 ==> min_off_y == 100000,
                i > 0 ==> (exists|j: int|
                    0 <= j < i && min_off_y == (#[trigger] desc.glyphs@[j]).yoffset),
                i > 0 ==> (forall|j: int|
                    0 <= j < i ==> min_off_y <= (#[trigger] desc.glyphs@[j]).yoffset),
            decreases desc.glyphs@.len() - i,
        {
            let rec = desc.glyphs[i];
            let key: u8 = #[verifier::truncate] (rec.id as u8);
            let data = CharacterData {
                id: rec.id,
                x1: Uv { num: rec.x as i64, den: image.width },
                x2: Uv { num: rec.x as i64 + rec.width as i64, den: image.width },
                y1: Uv { num: rec.y as i64, den: image.height },
                y2: Uv { num: rec.y as i64 + rec.height as i64, den: image.height },
                width: rec.width,
                height: rec.height,
                x_off: rec.xoffset,
                y_off: rec.yoffset,
            };
            if i == 0 || rec.yoffset < min_off_y {
                min_off_y = rec.yoffset;
            }
            characters.insert(key, data);
            proof {
                let pre = desc.glyphs@.subrange(0, i as int);
                let post = desc.glyphs@.subrange(0, i + 1 as int);
                assert(post.drop_last() =~= pre);
                assert(post.last() == desc.glyphs@[i as int]);
                assert(data == glyph_metrics(desc.glyphs@[i as int], image.width, image.height));
            }
            i = i + 1;
        }
        proof {
            assert(desc.glyphs@.subrange(0, desc.glyphs@.len() as int) =~= desc.glyphs@);
        }

        Ok(Font {
            name: desc.name,
            image_buffer: image.pixels,
            width: image.width,
            height: image.height,
            line_height: desc.line_height,
            size: desc.size,
            min_offset_y: min_off_y,
            characters,
        })
    }

    /// Loads the font from the given description text and atlas image bytes.
    ///
    /// Fails with `FormatError` when the description does not parse or the
    /// image does not decode, with `UnsupportedColorFormat` when the image
    /// decodes to anything but a 4-channel layout, and with `CorruptAsset`
    /// when the decoded buffer length mismatches the declared dimensions.
    pub fn load_raw(sfl_content: &str, image_bytes: &[u8]) -> (r: Result<Font, GlermError>)
        ensures
            sfl_parse(sfl_content@) is None ==> r == Err::<Font, GlermError>(
                GlermError::FormatError,
            ),
            sfl_parse(sfl_content@) is Some && png_decode(image_bytes@) is None ==> r
                == Err::<Font, GlermError>(GlermError::FormatError),
            sfl_parse(sfl_content@) is Some && png_decode(image_bytes@) is Some ==> {
                let d = png_decode(image_bytes@)->Some_0;
                &&& (d.2 != 4 ==> r == Err::<Font, GlermError>(GlermError::UnsupportedColorFormat))
                &&& (d.2 == 4 && d.3.len() != d.0 * d.1 * 4 ==> r == Err::<Font, GlermError>(
                    GlermError::CorruptAsset,
                ))
                &&& (d.2 == 4 && d.3.len() == d.0 * d.1 * 4 ==> r is Ok)
            },
            r is Ok ==> sfl_parse(sfl_content@) is Some && png_decode(image_bytes@) is Some
                && font_from_description(
                r->Ok_0,
                sfl_parse(sfl_content@)->Some_0,
                png_decode(image_bytes@)->Some_0,
            ),
    {
        let parsed = match parse_description(sfl_content) {
            Some(p) => p,
            None => return Err(GlermError::FormatError),
        };
        let image = match decode_image(image_bytes) {
            Some(d) => d,
            None => return Err(GlermError::FormatError),
        };
        let ghost s = sfl_parse(sfl_content@)->Some_0;
        let ghost d = png_decode(image_bytes@)->Some_0;
        let ghost recs = parsed.glyphs@;
        let r = Font::from_parts(parsed, image);
        proof {
            if r is Ok {
                let f = r->Ok_0;
                assert(records_match(recs, s.3));
                assert(f.characters@ == char_map(recs, f.width, f.height));
                lemma_min_offset_transfers(f.min_offset_y as int, recs, s.3);
            }
        }
        r
    }

    /// Gets the `CharacterData` for the given character, or
    /// `CharacterNotFound` when the byte-sized character code has no glyph
    /// entry.
    pub fn get_character(&self, character: char) -> (r: Result<CharacterData, GlermError>)
        ensures
            self.characters@.contains_key((character as u32) as u8) ==> r == Ok::<
                CharacterData,
                GlermError,
            >(self.characters@[(character as u32) as u8]),
            !self.characters@.contains_key((character as u32) as u8) ==> r == Err::<
                CharacterData,
                GlermError,
            >(GlermError::CharacterNotFound),
    {
        let character_code: u8 = #[verifier::truncate] ((character as u32) as u8);
        match self.characters.get(&character_code) {
            Some(character_data) => Ok(*character_data),
            None => Err(GlermError::CharacterNotFound),
        }
    }
}

/// The texture rectangle of one character is well formed: the fractions on
/// each axis share their denominator, the denominators are positive, and
/// `0 <= min <= max <= 1` holds of both normalized coordinate pairs.
pub open spec fn uv_wf(c: CharacterData) -> bool {
    &&& c.x1.den == c.x2.den
    &&& c.y1.den == c.y2.den
    &&& c.x1.den > 0
    &&& c.y1.den > 0
    &&& 0 <= c.x1.num
    &&& c.x1.num <= c.x2.num
    &&& c.x2.num as int <= c.x1.den as int
    &&& 0 <= c.y1.num
    &&& c.y1.num <= c.y2.num
    &&& c.y2.num as int <= c.y1.den as int
}

/// Every glyph rectangle the description declares lies inside the atlas of
/// width `w` and height `h`, with nonnegative position and size.
pub open spec fn glyphs_within_atlas(
    glyphs: Map<int, (int, int, int, int, int, int)>,
    w: int,
    h: int,
) -> bool {
    forall|k: int| #[trigger] glyphs.contains_key(k) ==> {
        let g = glyphs[k];
        &&& 0 <= g.0
        &&& 0 <= g.2
        &&& g.0 + g.2 <= w
        &&& 0 <= g.1
        &&& 0 <= g.3
        &&& g.1 + g.3 <= h
    }
}

/// Every value of the character table comes from some record of the
/// sequence it was built from, under that record's byte key.
proof fn lemma_char_map_values(recs: Seq<GlyphRecord>, w: u32, h: u32)
    ensures
        forall|k: u8| #[trigger] char_map(recs, w, h).contains_key(k) ==> exists|i: int|
            0 <= i < recs.len() && (#[trigger] recs[i]).id as u8 == k && char_map(recs, w, h)[k]
                == glyph_metrics(recs[i], w, h),
    decreases recs.len(),
{
    if recs.len() > 0 {
        lemma_char_map_values(recs.drop_last(), w, h);
        let cm = char_map(recs, w, h);
        let prev = char_map(recs.drop_last(), w, h);
        assert forall|k: u8| #[trigger] cm.contains_key(k) implies exists|i: int|
            0 <= i < recs.len() && (#[trigger] recs[i]).id as u8 == k && cm[k] == glyph_metrics(
                recs[i],
                w,
                h,
            ) by {
            if k == recs.last().id as u8 {
                assert(recs[recs.len() - 1].id as u8 == k && cm[k] == glyph_metrics(
                    recs[recs.len() - 1],
                    w,
                    h,
                ));
            } else {
                assert(prev.contains_key(k));
                let i = choose|i: int|
                    0 <= i < recs.drop_last().len() && (#[trigger] recs.drop_last()[i]).id as u8
                        == k && prev[k] == glyph_metrics(recs.drop_last()[i], w, h);
                assert(recs.drop_last()[i] == recs[i]);
                assert(recs[i].id as u8 == k && cm[k] == glyph_metrics(recs[i], w, h));
            }
        }
    }
}

/// Every glyph of a loaded font has a well-formed texture rectangle:
/// `uv_min <= uv_max` on both axes, and all four coordinates lie in the
/// normalized range zero to one — provided the description keeps its glyph
/// rectangles inside the atlas, which every well-made font does.
pub proof fn lemma_glyph_uv_bounds(
    f: Font,
    s: (Seq<char>, int, int, Map<int, (int, int, int, int, int, int)>),
    d: (int, int, int, Seq<u8>),
)
    requires
        font_from_description(f, s, d),
        glyphs_within_atlas(s.3, d.0, d.1),
        d.0 > 0,
        d.1 > 0,
    ensures
        forall|k: u8| #[trigger] f.characters@.contains_key(k) ==> uv_wf(f.characters@[k]),
{
    let recs = choose|recs: Seq<GlyphRecord>|
        #[trigger] records_match(recs, s.3) && f.characters@ == char_map(recs, f.width, f.height);
    lemma_char_map_values(recs, f.width, f.height);
    assert forall|k: u8| #[trigger] f.characters@.contains_key(k) implies uv_wf(
        f.characters@[k],
    ) by {
        let i = choose|i: int|
            0 <= i < recs.len() && (#[trigger] recs[i]).id as u8 == k && char_map(
                recs,
                f.width,
                f.height,
            )[k] == glyph_metrics(recs[i], f.width, f.height);
        assert(s.3.contains_key(recs[i].id as int));
        assert(s.3[recs[i].id as int] == record_fields(recs[i]));
        assert(f.characters@[k] == glyph_metrics(recs[i], f.width, f.height));
    }
}

/// Each key of the glyph map keeps its identity when truncated to the byte
/// the character table is keyed by.
pub open spec fn byte_keys_distinct(glyphs: Map<int, (int, int, int, int, int, int)>) -> bool {
    forall|k1: int, k2: int|
        #[trigger] glyphs.contains_key(k1) && #[trigger] glyphs.contains_key(k2) && k1 != k2
            ==> (k1 as i32) as u8 != (k2 as i32) as u8
}

/// The exact character table that any enumeration of a collision-free
/// glyph map yields: it holds exactly the byte keys of the map's ids, each
/// mapped to its record's metrics.
proof fn lemma_char_map_exact(
    recs: Seq<GlyphRecord>,
    glyphs: Map<int, (int, int, int, int, int, int)>,
    w: u32,
    h: u32,
)
    requires
        forall|i: int, j: int| 0 <= i < j < recs.len() ==> recs[i].id != recs[j].id,
        forall|i: int|
            0 <= i < recs.len() ==> #[trigger] glyphs.contains_key(recs[i].id as int)
                && glyphs[recs[i].id as int] == record_fields(recs[i]),
        byte_keys_distinct(glyphs),
    ensures
        forall|i: int|
            0 <= i < recs.len() ==> #[trigger] char_map(recs, w, h).contains_key(recs[i].id as u8)
                && char_map(recs, w, h)[recs[i].id as u8] == glyph_metrics(recs[i], w, h),
        forall|k: u8| #[trigger] char_map(recs, w, h).contains_key(k) ==> exists|i: int|
            0 <= i < recs.len() && (#[trigger] recs[i]).id as u8 == k,
    decreases recs.len(),
{
    lemma_char_map_values(recs, w, h);
    if recs.len() > 0 {
        let prefix = recs.drop_last();
        lemma_char_map_exact(prefix, glyphs, w, h);
        let last = recs.last();
        let cm = char_map(recs, w, h);
        let prev = char_map(prefix, w, h);
        assert forall|i: int| 0 <= i < recs.len() implies #[trigger] cm.contains_key(
            recs[i].id as u8,
        ) && cm[recs[i].id as u8] == glyph_metrics(recs[i], w, h) by {
            if i == recs.len() - 1 {
                assert(cm.contains_key(last.id as u8) && cm[last.id as u8] == glyph_metrics(
                    last,
                    w,
                    h,
                ));
            } else {
                assert(prefix[i] == recs[i]);
                assert(char_map(prefix, w, h).contains_key(prefix[i].id as u8));
                assert(char_map(prefix, w, h)[prefix[i].id as u8] == glyph_metrics(
                    prefix[i],
                    w,
                    h,
                ));
                let k1 = recs[i].id as int;
                let k2 = last.id as int;
                assert(glyphs.contains_key(k1));
                assert(glyphs.contains_key(k2));
                assert(recs[i].id != last.id);
                assert(k1 != k2);
                assert((k1 as i32) as u8 != (k2 as i32) as u8);
                assert(k1 as i32 == recs[i].id);
                assert(k2 as i32 == last.id);
                assert(recs[i].id as u8 != last.id as u8);
            }
        }
    }
}

/// Loading is deterministic wherever the description's glyph ids stay
/// distinct after truncation to their byte keys: two fonts loaded from the
/// same description and the same decoded atlas agree on every field,
/// whatever order the parser's table handed the records out in.  (When two
/// ids collapse onto one byte, the record processed last wins, and which
/// one that is the table's iteration order decides.)
pub proof fn lemma_load_deterministic(
    f1: Font,
    f2: Font,
    s: (Seq<char>, int, int, Map<int, (int, int, int, int, int, int)>),
    d: (int, int, int, Seq<u8>),
)
    requires
        font_from_description(f1, s, d),
        font_from_description(f2, s, d),
        byte_keys_distinct(s.3),
    ensures
        f1.name@ == f2.name@,
        f1.width == f2.width,
        f1.height == f2.height,
        f1.line_height == f2.line_height,
        f1.size == f2.size,
        f1.image_buffer@ == f2.image_buffer@,
        f1.min_offset_y == f2.min_offset_y,
        f1.characters@ == f2.characters@,
{
    let recs1 = choose|recs: Seq<GlyphRecord>|
        #[trigger] records_match(recs, s.3) && f1.characters@ == char_map(recs, f1.width, f1.height);
    let recs2 = choose|recs: Seq<GlyphRecord>|
        #[trigger] records_match(recs, s.3) && f2.characters@ == char_map(recs, f2.width, f2.height);
    lemma_char_map_exact(recs1, s.3, f1.width, f1.height);
    lemma_char_map_exact(recs2, s.3, f2.width, f2.height);
    let cm1 = char_map(recs1, f1.width, f1.height);
    let cm2 = char_map(recs2, f2.width, f2.height);
    assert forall|k: u8| #[trigger] cm1.contains_key(k) implies cm2.contains_key(k) && cm1[k]
        == cm2[k] by {
        lemma_char_maps_agree_at(recs1, recs2, s.3, f1.width, f1.height, k);
    }
    assert forall|k: u8| #[trigger] cm2.contains_key(k) implies cm1.contains_key(k) by {
        let i = choose|i: int| 0 <= i < recs2.len() && (#[trigger] recs2[i]).id as u8 == k;
        let k2 = recs2[i].id as int;
        assert(s.3.contains_key(k2));
        let j = choose|j: int| 0 <= j < recs1.len() && (#[trigger] recs1[j]).id as int == k2;
        assert(recs1[j].id as u8 == k);
        assert(cm1.contains_key(recs1[j].id as u8));
    }
    assert(cm1 =~= cm2);

    if s.3.dom().len() == 0 {
        assert(f1.min_offset_y == 100000 && f2.min_offset_y == 100000);
    } else {
        let k1 = choose|k: int| #[trigger] s.3.contains_key(k) && s.3[k].5 == f1.min_offset_y as int;
        let k2 = choose|k: int| #[trigger] s.3.contains_key(k) && s.3[k].5 == f2.min_offset_y as int;
        assert(f1.min_offset_y as int <= s.3[k2].5);
        assert(f2.min_offset_y as int <= s.3[k1].5);
    }
}

/// At any byte key the two character tables of [`lemma_load_deterministic`]
/// hold, they hold the same metrics.
proof fn lemma_char_maps_agree_at(
    recs1: Seq<GlyphRecord>,
    recs2: Seq<GlyphRecord>,
    glyphs: Map<int, (int, int, int, int, int, int)>,
    w: u32,
    h: u32,
    k: u8,
)
    requires
        records_match(recs1, glyphs),
        records_match(recs2, glyphs),
        byte_keys_distinct(glyphs),
        char_map(recs1, w, h).contains_key(k),
    ensures
        char_map(recs2, w, h).contains_key(k),
        char_map(recs1, w, h)[k] == char_map(recs2, w, h)[k],
{
    lemma_char_map_exact(recs1, glyphs, w, h);
    lemma_char_map_exact(recs2, glyphs, w, h);
    let i = choose|i: int| 0 <= i < recs1.len() && (#[trigger] recs1[i]).id as u8 == k;
    let ka = recs1[i].id as int;
    assert(glyphs.contains_key(ka));
    let j = choose|j: int| 0 <= j < recs2.len() && (#[trigger] recs2[j]).id as int == ka;
    assert(recs2[j].id == recs1[i].id);
    assert(glyphs[ka] == record_fields(recs1[i]) && glyphs[ka] == record_fields(recs2[j]));
    assert(recs2[j] == recs1[i]) by {
        assert(record_fields(recs1[i]).0 == record_fields(recs2[j]).0);
        assert(record_fields(recs1[i]).1 == record_fields(recs2[j]).1);
        assert(record_fields(recs1[i]).2 == record_fields(recs2[j]).2);
        assert(record_fields(recs1[i]).3 == record_fields(recs2[j]).3);
        assert(record_fields(recs1[i]).4 == record_fields(recs2[j]).4);
        assert(record_fields(recs1[i]).5 == record_fields(recs2[j]).5);
    }
    assert(recs2[j].id as u8 == k);
    assert(char_map(recs2, w, h).contains_key(recs2[j].id as u8));
    assert(char_map(recs1, w, h)[k] == glyph_metrics(recs1[i], w, h));
    assert(char_map(recs2, w, h)[recs2[j].id as u8] == glyph_metrics(recs2[j], w, h));
}

/// A least `yoffset` over an enumeration of the glyph map is a least
/// `yoffset` over the map itself.
proof fn lemma_min_offset_transfers(
    m: int,
    recs: Seq<GlyphRecord>,
    glyphs: Map<int, (int, int, int, int, int, int)>,
)
    requires
        records_match(recs, glyphs),
        recs.len() == 0 ==> m == 100000,
        recs.len() > 0 ==> (exists|j: int| 0 <= j < recs.len() && m == (#[trigger] recs[j]).yoffset)
            && (forall|j: int| 0 <= j < recs.len() ==> m <= (#[trigger] recs[j]).yoffset),
    ensures
        min_offset_matches(m, glyphs),
{
    if recs.len() == 0 {
        assert(glyphs.dom() =~= Set::empty()) by {
            if glyphs.dom().len() != 0 {
                let k = glyphs.dom().choose();
                assert(glyphs.dom().contains(k));
                assert(glyphs.contains_key(k));
            }
        }
        assert(glyphs.dom().len() == 0);
    } else {
        assert(glyphs.dom().len() > 0) by {
            assert(glyphs.contains_key(recs[0].id as int));
            if glyphs.dom().len() == 0 {
                assert(glyphs.dom() =~= Set::empty());
            }
        }
        let j = choose|j: int| 0 <= j < recs.len() && m == (#[trigger] recs[j]).yoffset;
        assert(0 <= j < recs.len() && m == recs[j].yoffset);
        assert(glyphs.contains_key(recs[j].id as int));
        assert(glyphs[recs[j].id as int] == record_fields(recs[j]));
        assert(glyphs[recs[j].id as int].5 == m);
        assert(forall|k: int| #[trigger] glyphs.contains_key(k) ==> m <= glyphs[k].5) by {
            assert forall|k: int| #[trigger] glyphs.contains_key(k) implies m <= glyphs[k].5 by {
                let i = choose|i: int| 0 <= i < recs.len() && (#[trigger] recs[i]).id as int == k;
                assert(glyphs[k] == record_fields(recs[i]));
                assert(m <= recs[i].yoffset);
            }
        }
    }
}

} // verus!
