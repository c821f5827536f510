//! What is known about an image besides its pixels: how the camera held it,
//! and the text that came with it.
//!
//! Reading the metadata out of a file is left to the program. This module
//! holds the values it reads and turns them into the lines that are shown.

use vstd::prelude::*;
use vstd::utf8::{decode_utf8, encode_utf8, is_char_boundary};
use crate::paths::{image_kind, spec_image_kind, ImageKind, PathRules};
use crate::prompt::{extract_comfyui_prompt, spec_extract_prompt, Json};
use crate::text::{decimal, opens_brace, spec_decimal, spec_opens_brace};

verus! {

/// How an image has to be turned to stand upright, as recorded by the
/// camera.
#[derive(Clone, Copy, Debug, PartialEq, Eq, Structural)]
pub enum ExifOrientation {
    Normal,
    Rotate90,
    Rotate180,
    Rotate270,
    FlipHorizontal,
    FlipHorizontalRotate90,
    FlipHorizontalRotate180,
    FlipHorizontalRotate270,
}

/// The orientation that the number in an image's orientation tag stands for.
/// Numbers outside one to eight stand for the normal orientation.
pub open spec fn spec_orientation(val: u32) -> ExifOrientation {
    if val == 2 {
        ExifOrientation::FlipHorizontal
    } else if val == 3 {
        ExifOrientation::Rotate180
    } else if val == 4 {
        ExifOrientation::FlipHorizontalRotate180
    } else if val == 5 {
        ExifOrientation::FlipHorizontalRotate90
    } else if val == 6 {
        ExifOrientation::Rotate90
    } else if val == 7 {
        ExifOrientation::FlipHorizontalRotate270
    } else if val == 8 {
        ExifOrientation::Rotate270
    } else {
        ExifOrientation::Normal
    }
}

/// The name under which an orientation is shown.
pub open spec fn spec_orientation_name(orientation: ExifOrientation) -> Seq<char> {
    match orientation {
        ExifOrientation::Normal => "Normal"@,
        ExifOrientation::Rotate90 => "Rotate 90° CW"@,
        ExifOrientation::Rotate180 => "Rotate 180°"@,
        ExifOrientation::Rotate270 => "Rotate 90° CCW"@,
        ExifOrientation::FlipHorizontal => "Flip Horizontal"@,
        ExifOrientation::FlipHorizontalRotate90 => "Flip Horizontal, Rotate 90° CW"@,
        ExifOrientation::FlipHorizontalRotate180 => "Flip Horizontal, Rotate 180°"@,
        ExifOrientation::FlipHorizontalRotate270 => "Flip Horizontal, Rotate 90° CCW"@,
    }
}

impl ExifOrientation {
    /// The orientation for the number found in the orientation tag.
    pub fn from_u32(val: u32) -> (orientation: Self)
        ensures
            orientation == spec_orientation(val),
    {
        match val {
            1 => ExifOrientation::Normal,
            2 => ExifOrientation::FlipHorizontal,
            3 => ExifOrientation::Rotate180,
            4 => ExifOrientation::FlipHorizontalRotate180,
            5 => ExifOrientation::FlipHorizontalRotate90,
            6 => ExifOrientation::Rotate90,
            7 => ExifOrientation::FlipHorizontalRotate270,
            8 => ExifOrientation::Rotate270,
            _ => ExifOrientation::Normal,
        }
    }

    /// Whether the image has to be turned or mirrored before it is shown.
    pub fn needs_rotation(&self) -> (needed: bool)
        ensures
            needed == (*self != ExifOrientation::Normal),
    {
        match self {
            ExifOrientation::Normal => false,
            _ => true,
        }
    }

    /// The name under which the orientation is shown.
    pub fn to_string(&self) -> (name: String)
        ensures
            name@ == spec_orientation_name(*self),
    {
        match self {
            ExifOrientation::Normal => "Normal".to_owned(),
            ExifOrientation::Rotate90 => "Rotate 90° CW".to_owned(),
            ExifOrientation::Rotate180 => "Rotate 180°".to_owned(),
            ExifOrientation::Rotate270 => "Rotate 90° CCW".to_owned(),
            ExifOrientation::FlipHorizontal => "Flip Horizontal".to_owned(),
            ExifOrientation::FlipHorizontalRotate90 => "Flip Horizontal, Rotate 90° CW".to_owned(),
            ExifOrientation::FlipHorizontalRotate180 => "Flip Horizontal, Rotate 180°".to_owned(),
            ExifOrientation::FlipHorizontalRotate270 => "Flip Horizontal, Rotate 90° CCW".to_owned(),
        }
    }
}

/// What the camera recorded about a photograph, as text ready to show.
#[derive(Debug, Clone)]
pub struct ExifData {
    pub make: Option<String>,
    pub model: Option<String>,
    pub date_taken: Option<String>,
    pub exposure_time: Option<String>,
    pub f_number: Option<String>,
    pub iso: Option<String>,
    pub focal_length: Option<String>,
    pub lens_model: Option<String>,
    pub software: Option<String>,
    pub image_size: Option<String>,
    pub orientation: ExifOrientation,
}

/// What was read from the camera data of a file, value by value, each as
/// the text or the number that it is shown as.
#[derive(Debug, Clone)]
pub struct ExifFields {
    pub make: Option<String>,
    pub model: Option<String>,
    pub date_time_original: Option<String>,
    pub date_time: Option<String>,
    pub exposure_time: Option<String>,
    pub f_number: Option<String>,
    pub photographic_sensitivity: Option<String>,
    pub iso_speed: Option<String>,
    pub focal_length: Option<String>,
    pub lens_model: Option<String>,
    pub lens_specification: Option<String>,
    pub software: Option<String>,
    pub orientation: Option<u32>,
    pub pixel_x_dimension: Option<u32>,
    pub pixel_y_dimension: Option<u32>,
}

/// The first of two optional texts that is present.
pub open spec fn spec_first_text(first: Option<String>, second: Option<String>) -> Option<
    Seq<char>,
> {
    match first {
        Some(text) => Some(text@),
        None => spec_text(second),
    }
}

/// The size of an image as text: width, the letter x, and height, if both
/// are known.
pub open spec fn spec_size_text(width: Option<u32>, height: Option<u32>) -> Option<Seq<char>> {
    match (width, height) {
        (Some(w), Some(h)) => Some(spec_decimal(w as nat) + "x"@ + spec_decimal(h as nat)),
        _ => None,
    }
}

/// The first of two optional texts that is present.
fn first_text(first: &Option<String>, second: &Option<String>) -> (text: Option<String>)
    ensures
        spec_text(text) == spec_first_text(*first, *second),
{
    match first {
        Some(text) => Some(text.clone()),
        None => match second {
            Some(text) => Some(text.clone()),
            None => None,
        },
    }
}

/// A copy of an optional text.
fn copy_text(field: &Option<String>) -> (text: Option<String>)
    ensures
        spec_text(text) == spec_text(*field),
{
    match field {
        Some(text) => Some(text.clone()),
        None => None,
    }
}

impl ExifData {
    /// The camera data made of what was read from a file. The date is that
    /// of the exposure or, without it, that of the file; the sensitivity and
    /// the lens are taken from the tag that names them or, without it, from
    /// the tag that describes them; the size is given only if both sides are
    /// known; an orientation that is absent is normal.
    pub fn from_fields(fields: &ExifFields) -> (data: ExifData)
        ensures
            spec_text(data.make) == spec_text(fields.make),
            spec_text(data.model) == spec_text(fields.model),
            spec_text(data.date_taken) == spec_first_text(
                fields.date_time_original,
                fields.date_time,
            ),
            spec_text(data.exposure_time) == spec_text(fields.exposure_time),
            spec_text(data.f_number) == spec_text(fields.f_number),
            spec_text(data.iso) == spec_first_text(
                fields.photographic_sensitivity,
                fields.iso_speed,
            ),
            spec_text(data.focal_length) == spec_text(fields.focal_length),
            spec_text(data.lens_model) == spec_first_text(
                fields.lens_model,
                fields.lens_specification,
            ),
            spec_text(data.software) == spec_text(fields.software),
            spec_text(data.image_size) == spec_size_text(
                fields.pixel_x_dimension,
                fields.pixel_y_dimension,
            ),
            data.orientation == match fields.orientation {
                Some(value) => spec_orientation(value),
                None => ExifOrientation::Normal,
            },
    {
        let image_size: Option<String> = match (fields.pixel_x_dimension, fields.pixel_y_dimension) {
            (Some(w), Some(h)) => Some(
                decimal(w as usize).concat("x").concat(decimal(h as usize).as_str()),
            ),
            _ => None,
        };
        let orientation: ExifOrientation = match fields.orientation {
            Some(value) => ExifOrientation::from_u32(value),
            None => ExifOrientation::Normal,
        };
        ExifData {
            make: copy_text(&fields.make),
            model: copy_text(&fields.model),
            date_taken: first_text(&fields.date_time_original, &fields.date_time),
            exposure_time: copy_text(&fields.exposure_time),
            f_number: copy_text(&fields.f_number),
            iso: first_text(&fields.photographic_sensitivity, &fields.iso_speed),
            focal_length: copy_text(&fields.focal_length),
            lens_model: first_text(&fields.lens_model, &fields.lens_specification),
            software: copy_text(&fields.software),
            image_size,
            orientation,
        }
    }
}

/// The text of an optional string.
pub open spec fn spec_text(field: Option<String>) -> Option<Seq<char>> {
    match field {
        Some(text) => Some(text@),
        None => None,
    }
}

/// The line for one field: its label and its value between `before` and
/// `after`, or nothing if the field is absent.
pub open spec fn spec_field_line(
    label: Seq<char>,
    before: Seq<char>,
    field: Option<String>,
    after: Seq<char>,
) -> Seq<(Seq<char>, Seq<char>)> {
    match field {
        Some(text) => seq![(label, before + text@ + after)],
        None => Seq::empty(),
    }
}

/// The line for the orientation: absent for the normal orientation.
pub open spec fn spec_orientation_line(orientation: ExifOrientation) -> Seq<
    (Seq<char>, Seq<char>),
> {
    if orientation != ExifOrientation::Normal {
        seq![("Orientation"@, spec_orientation_name(orientation))]
    } else {
        Seq::empty()
    }
}

/// The labelled values of the fields that are present, in the order they
/// are shown.
pub open spec fn spec_key_values(data: ExifData) -> Seq<(Seq<char>, Seq<char>)> {
    spec_field_line("Camera make"@, Seq::empty(), data.make, Seq::empty()) + spec_field_line(
        "Camera model"@,
        Seq::empty(),
        data.model,
        Seq::empty(),
    ) + spec_field_line("Date taken"@, Seq::empty(), data.date_taken, Seq::empty())
        + spec_field_line("Image size"@, Seq::empty(), data.image_size, Seq::empty())
        + spec_orientation_line(data.orientation) + spec_field_line(
        "Exposure"@,
        Seq::empty(),
        data.exposure_time,
        "s"@,
    ) + spec_field_line("Aperture"@, "f/"@, data.f_number, Seq::empty()) + spec_field_line(
        "ISO"@,
        Seq::empty(),
        data.iso,
        Seq::empty(),
    ) + spec_field_line("Focal length"@, Seq::empty(), data.focal_length, "mm"@)
        + spec_field_line("Lens"@, Seq::empty(), data.lens_model, Seq::empty())
        + spec_field_line("Software"@, Seq::empty(), data.software, Seq::empty())
}

/// The texts of a list of labelled values.
pub open spec fn spec_pair_views(pairs: Seq<(String, String)>) -> Seq<(Seq<char>, Seq<char>)> {
    pairs.map_values(|pair: (String, String)| (pair.0@, pair.1@))
}

/// Appends the line for one field to `pairs`, if the field is present.
fn push_field(
    pairs: &mut Vec<(String, String)>,
    label: &str,
    before: &str,
    field: &Option<String>,
    after: &str,
)
    ensures
        spec_pair_views(final(pairs)@) == spec_pair_views(old(pairs)@) + spec_field_line(
            label@,
            before@,
            *field,
            after@,
        ),
{
    match field {
        Some(text) => {
            let value: String = before.to_owned().concat(text.as_str()).concat(after);
            let ghost start = pairs@;
            let pair: (String, String) = (label.to_owned(), value);
            pairs.push(pair);
            assert(spec_pair_views(pairs@) =~= spec_pair_views(start) + seq![
                (label@, before@ + text@ + after@),
            ]);
        },
        None => {
            assert(spec_pair_views(pairs@) =~= spec_pair_views(pairs@) + Seq::<
                (Seq<char>, Seq<char>),
            >::empty());
        },
    }
}

impl ExifData {
    /// The fields that are present as labelled values, in the order they are
    /// shown. The orientation is listed unless it is normal.
    pub fn to_key_values(&self) -> (pairs: Vec<(String, String)>)
        ensures
            spec_pair_views(pairs@) == spec_key_values(*self),
    {
        let mut pairs: Vec<(String, String)> = Vec::new();
        assert(spec_pair_views(pairs@) =~= Seq::<(Seq<char>, Seq<char>)>::empty());
        push_field(&mut pairs, "Camera make", "", &self.make, "");
        push_field(&mut pairs, "Camera model", "", &self.model, "");
        push_field(&mut pairs, "Date taken", "", &self.date_taken, "");
        push_field(&mut pairs, "Image size", "", &self.image_size, "");
        if self.orientation.needs_rotation() {
            let ghost start = pairs@;
            let pair: (String, String) = ("Orientation".to_owned(), self.orientation.to_string());
            pairs.push(pair);
            assert(spec_pair_views(pairs@) =~= spec_pair_views(start) + spec_orientation_line(
                self.orientation,
            ));
        } else {
            assert(spec_pair_views(pairs@) =~= spec_pair_views(pairs@) + spec_orientation_line(
                self.orientation,
            ));
        }
        push_field(&mut pairs, "Exposure", "", &self.exposure_time, "s");
        push_field(&mut pairs, "Aperture", "f/", &self.f_number, "");
        push_field(&mut pairs, "ISO", "", &self.iso, "");
        push_field(&mut pairs, "Focal length", "", &self.focal_length, "mm");
        push_field(&mut pairs, "Lens", "", &self.lens_model, "");
        push_field(&mut pairs, "Software", "", &self.software, "");
        proof {
            reveal_strlit("");
            assert(""@ =~= Seq::<char>::empty());
        }
        pairs
    }
}

/// Where the metadata of an image file is found, which depends on its format.
#[derive(Clone, Copy, Debug, PartialEq, Eq, Structural)]
pub enum MetadataSource {
    /// A JPEG file: camera data in its EXIF block.
    Exif,
    /// A PNG file: a prompt in its text chunks.
    PngText,
    /// A WebP file: a prompt in the description of its EXIF chunk.
    WebpExif,
    /// Any other file: nothing to read.
    Nothing,
}

/// Where the metadata of the file at `path` is found.
pub open spec fn spec_metadata_source(path: Seq<char>, rules: PathRules) -> MetadataSource {
    match spec_image_kind(path, rules) {
        Some(ImageKind::Jpeg) => MetadataSource::Exif,
        Some(ImageKind::Png) => MetadataSource::PngText,
        Some(ImageKind::WebP) => MetadataSource::WebpExif,
        None => MetadataSource::Nothing,
    }
}

/// Where to look for the metadata of the file at `path`.
pub fn metadata_source(path: &str, rules: PathRules) -> (source: MetadataSource)
    ensures
        source == spec_metadata_source(path@, rules),
{
    match image_kind(path, rules) {
        Some(ImageKind::Jpeg) => MetadataSource::Exif,
        Some(ImageKind::Png) => MetadataSource::PngText,
        Some(ImageKind::WebP) => MetadataSource::WebpExif,
        None => MetadataSource::Nothing,
    }
}

/// The metadata of one image.
#[derive(Debug, Clone)]
pub struct ImageMetadata {
    pub orientation: ExifOrientation,
    pub prompt: Option<String>,
    pub exif: Option<ExifData>,
}

impl ImageMetadata {
    /// The metadata made of what was read from a file: camera data, a prompt,
    /// both or neither. The orientation is that of the camera data, or normal
    /// without camera data.
    pub fn from_parts(exif: Option<ExifData>, prompt: Option<String>) -> (metadata: Self)
        ensures
            metadata.exif == exif,
            metadata.prompt == prompt,
            metadata.orientation == match exif {
                Some(data) => data.orientation,
                None => ExifOrientation::Normal,
            },
    {
        let orientation: ExifOrientation = match &exif {
            Some(data) => data.orientation,
            None => ExifOrientation::Normal,
        };
        ImageMetadata { orientation, prompt, exif }
    }
}

/// The lines for labelled values: each label, a colon and a space, and the
/// value.
pub open spec fn spec_key_value_lines(pairs: Seq<(Seq<char>, Seq<char>)>) -> Seq<Seq<char>> {
    pairs.map_values(|pair: (Seq<char>, Seq<char>)| pair.0 + ": "@ + pair.1)
}

/// A text between quotation marks.
pub open spec fn spec_quoted(text: Seq<char>) -> Seq<char> {
    "\""@ + text + "\""@
}

/// The last character boundary of a text at or before position `end`.
pub open spec fn spec_boundary_before(bytes: Seq<u8>, end: int) -> int
    decreases end,
{
    if end <= 0 {
        0
    } else if is_char_boundary(bytes, end) {
        end
    } else {
        spec_boundary_before(bytes, end - 1)
    }
}

/// The start of a text: its first `limit` bytes or, where that would cut a
/// character in two, as many as end on a character; all of it if it is
/// shorter.
pub open spec fn spec_head(text: Seq<char>, limit: int) -> Seq<char> {
    let bytes = encode_utf8(text);
    let end = if bytes.len() < limit {
        bytes.len() as int
    } else {
        limit
    };
    decode_utf8(bytes.subrange(0, spec_boundary_before(bytes, end)))
}

/// A text in pieces of `size` characters, the last of which may be shorter,
/// from character `from` on.
pub open spec fn spec_pieces(text: Seq<char>, size: int, from: int) -> Seq<Seq<char>>
    decreases text.len() - from,
{
    if from < 0 || from >= text.len() || size <= 0 {
        Seq::empty()
    } else if text.len() - from > size {
        seq![text.subrange(from, from + size)] + spec_pieces(text, size, from + size)
    } else {
        seq![text.subrange(from, text.len() as int)]
    }
}

/// The lines for a prompt. A prompt that starts with an opening brace is
/// taken for the JSON document of a workflow: the prompt found in the
/// document `json` that it parses to is shown or, where none is found, the
/// first 200 bytes of the text. Any other prompt is shown in full, in
/// lines of eighty characters.
pub open spec fn spec_prompt_lines(prompt: Seq<char>, json: Option<Json>) -> Seq<Seq<char>> {
    if spec_opens_brace(encode_utf8(prompt)) {
        let found = match json {
            Some(document) => spec_extract_prompt(document),
            None => None,
        };
        seq![
            ""@,
            "ComfyUI prompt:"@,
            spec_quoted(
                match found {
                    Some(extracted) => extracted,
                    None => spec_head(prompt, 200),
                },
            ),
        ]
    } else {
        seq![""@, "Prompt:"@] + spec_pieces(prompt, 80, 0)
    }
}

/// The lines for the camera data of an image, if it has any.
pub open spec fn spec_camera_lines(metadata: ImageMetadata) -> Seq<Seq<char>> {
    match metadata.exif {
        Some(data) => spec_key_value_lines(spec_key_values(data)),
        None => Seq::empty(),
    }
}

/// The lines that describe the metadata of an image: one for each value of
/// the camera data, then those for the prompt; a single line that says so
/// if there is neither.
pub open spec fn spec_metadata_lines(metadata: ImageMetadata, json: Option<Json>) -> Seq<
    Seq<char>,
> {
    let camera = spec_camera_lines(metadata);
    let prompt = match metadata.prompt {
        Some(text) => spec_prompt_lines(text@, json),
        None => Seq::empty(),
    };
    if (camera + prompt).len() == 0 {
        seq!["No metadata found"@]
    } else {
        camera + prompt
    }
}

/// The texts of a list of lines.
pub open spec fn spec_line_views(lines: Seq<String>) -> Seq<Seq<char>> {
    lines.map_values(|line: String| line@)
}

/// Appends a line to `lines`.
fn push_line(lines: &mut Vec<String>, line: String)
    ensures
        spec_line_views(final(lines)@) == spec_line_views(old(lines)@).push(line@),
{
    let ghost before = lines@;
    let ghost text = line@;
    lines.push(line);
    assert(spec_line_views(lines@) =~= spec_line_views(before).push(text));
}

/// The start of a text, cut at the last character boundary at or before
/// `limit` bytes.
pub fn head(text: &str, limit: usize) -> (start: String)
    ensures
        start@ == spec_head(text@, limit as int),
{
    let bytes = text.as_bytes();
    let mut end: usize = if bytes.len() < limit {
        bytes.len()
    } else {
        limit
    };
    let ghost first = end;
    proof {
        vstd::utf8::encode_utf8_valid_utf8(text@);
    }
    while end > 0 && !text.is_char_boundary(end)
        invariant
            end <= bytes.len(),
            bytes@ == encode_utf8(text@),
            vstd::utf8::valid_utf8(bytes@),
            spec_boundary_before(bytes@, first as int) == spec_boundary_before(
                bytes@,
                end as int,
            ),
        decreases end,
    {
        end = end - 1;
    }
    let parts = text.split_at(end);
    proof {
        vstd::utf8::encode_utf8_decode_utf8(parts.0@);
    }
    parts.0.to_owned()
}

/// Appends to `lines` the pieces of `size` characters that `text` falls
/// into.
fn push_pieces(lines: &mut Vec<String>, text: &str, size: usize)
    requires
        size > 0,
    ensures
        spec_line_views(final(lines)@) == spec_line_views(old(lines)@) + spec_pieces(
            text@,
            size as int,
            0,
        ),
{
    let count: usize = text.unicode_len();
    let mut from: usize = 0;
    proof {
        assert(spec_line_views(lines@) + Seq::<Seq<char>>::empty() =~= spec_line_views(lines@));
    }
    while from < count
        invariant
            from <= count,
            count == text@.len(),
            size > 0,
            spec_line_views(old(lines)@) + spec_pieces(text@, size as int, 0) == spec_line_views(
                lines@,
            ) + spec_pieces(text@, size as int, from as int),
        decreases count - from,
    {
        let to: usize = if count - from > size {
            from + size
        } else {
            count
        };
        let ghost before = spec_line_views(lines@);
        let piece: String = text.substring_char(from, to).to_owned();
        push_line(lines, piece);
        proof {
            let rest = spec_pieces(text@, size as int, to as int);
            assert(before + (seq![text@.subrange(from as int, to as int)] + rest) =~= before.push(
                text@.subrange(from as int, to as int),
            ) + rest);
            if to == count {
                assert(rest =~= Seq::<Seq<char>>::empty());
                assert(before + seq![text@.subrange(from as int, to as int)] =~= before.push(
                    text@.subrange(from as int, to as int),
                ) + rest);
            }
        }
        from = to;
    }
    proof {
        assert(spec_line_views(lines@) + Seq::<Seq<char>>::empty() =~= spec_line_views(lines@));
    }
}

impl ImageMetadata {
    /// The lines that describe the metadata to the user, where `json` is the
    /// document that the prompt parses to, if it parses.
    pub fn get_metadata_lines(&self, json: Option<&Json>) -> (lines: Vec<String>)
        ensures
            spec_line_views(lines@) == spec_metadata_lines(
                *self,
                match json {
                    Some(document) => Some(*document),
                    None => None,
                },
            ),
    {
        let mut lines: Vec<String> = Vec::new();
        proof {
            assert(spec_line_views(lines@) =~= Seq::<Seq<char>>::empty());
        }
        let ghost camera = spec_camera_lines(*self);
        match &self.exif {
            Some(data) => {
                let pairs = data.to_key_values();
                let mut at: usize = 0;
                while at < pairs.len()
                    invariant
                        at <= pairs.len(),
                        spec_pair_views(pairs@) == spec_key_values(*data),
                        spec_line_views(lines@) == spec_key_value_lines(
                            spec_pair_views(pairs@),
                        ).take(at as int),
                    decreases pairs.len() - at,
                {
                    let ghost before = spec_line_views(lines@);
                    let line: String = pairs[at].0.clone().concat(": ").concat(
                        pairs[at].1.as_str(),
                    );
                    push_line(&mut lines, line);
                    proof {
                        let all = spec_key_value_lines(spec_pair_views(pairs@));
                        assert(all.take(at + 1) =~= all.take(at as int).push(all[at as int]));
                    }
                    at = at + 1;
                }
                proof {
                    let all = spec_key_value_lines(spec_pair_views(pairs@));
                    assert(all.take(pairs.len() as int) =~= all);
                }
            },
            None => {},
        }
        assert(spec_line_views(lines@) == camera);
        match &self.prompt {
            Some(prompt) => {
                if opens_brace(prompt.as_str().as_bytes()) {
                    let found: Option<String> = match json {
                        Some(document) => extract_comfyui_prompt(document),
                        None => None,
                    };
                    let shown: String = match found {
                        Some(extracted) => extracted,
                        None => head(prompt.as_str(), 200),
                    };
                    push_line(&mut lines, "".to_owned());
                    push_line(&mut lines, "ComfyUI prompt:".to_owned());
                    push_line(&mut lines, "\"".to_owned().concat(shown.as_str()).concat("\""));
                    proof {
                        assert(spec_line_views(lines@) =~= camera + spec_prompt_lines(
                            prompt@,
                            match json {
                                Some(document) => Some(*document),
                                None => None,
                            },
                        ));
                    }
                } else {
                    push_line(&mut lines, "".to_owned());
                    push_line(&mut lines, "Prompt:".to_owned());
                    push_pieces(&mut lines, prompt.as_str(), 80);
                    proof {
                        assert(spec_line_views(lines@) =~= camera + spec_prompt_lines(
                            prompt@,
                            match json {
                                Some(document) => Some(*document),
                                None => None,
                            },
                        ));
                    }
                }
            },
            None => {
                proof {
                    assert(spec_line_views(lines@) =~= camera + Seq::<Seq<char>>::empty());
                }
            },
        }
        if lines.len() == 0 {
            push_line(&mut lines, "No metadata found".to_owned());
            proof {
                assert(spec_line_views(lines@) =~= seq!["No metadata found"@]);
            }
        }
        lines
    }
}

} // verus!
