//! The clipboard monitor: its settings, and what it does on each tick.
//!
//! Every tick reads the clipboard once. A text that is not blank is
//! fingerprinted and recorded unless a record with the same fingerprint
//! exists. When the clipboard holds no text, an image is fingerprinted the
//! same way; a new one is saved as a PNG file, optionally with a thumbnail
//! and an encrypted copy, and recorded. The tick is a state machine: each
//! step takes what the last action brought back and gives the next action,
//! which the caller carries out.
use vstd::prelude::*;
use crate::text::{decimal, lemma_parse_decimal_roundtrip, parse_u64, parse_u64_spec, str_trim, trim_spec, push_signed_decimal, signed_decimal, string_push, push_decimal_pad2, decimal_pad2};
use crate::time::ClockReading;
use crate::digest::{hex_lower_spec, sha256_digest, image_fingerprint, image_fingerprint_input, text_fingerprint};
use crate::cipher::{decrypted_image_spec, encrypt_image, encrypted_image_spec, max_plaintext_len};
use crate::paths::{join_path, path_join};

verus! {

/// The polling interval: a whole number of milliseconds of at least 100 read
/// from the setting, 500 when the setting is absent, unreadable or smaller.
pub open spec fn polling_interval_spec(raw: Option<Seq<char>>) -> u64 {
    match raw {
        Some(r) => match parse_u64_spec(r) {
            Some(v) => if v >= 100 { v } else { 500 },
            None => 500,
        },
        None => 500,
    }
}

/// The view of an optional setting.
pub open spec fn setting_view(raw: Option<&str>) -> Option<Seq<char>> {
    match raw {
        Some(r) => Some(r@),
        None => None,
    }
}

/// Reads the polling interval from its setting (`None` when unset).
pub fn polling_interval_ms(raw: Option<&str>) -> (res: u64)
    ensures
        res == polling_interval_spec(setting_view(raw)),
        res >= 100,
        raw is None ==> res == 500,
        forall|v: u64|
            raw is Some && parse_u64_spec(raw->0@) == Some(v) ==> res == (if v >= 100 { v } else { 500 }),
        raw is Some && parse_u64_spec(raw->0@) is None ==> res == 500,
{
    match raw {
        Some(r) => match parse_u64(r) {
            Some(v) => if v >= 100 { v } else { 500 },
            None => 500,
        },
        None => 500,
    }
}

/// The polling interval is the number the setting is set to, for every
/// number of at least 100 milliseconds written in decimal; a smaller number,
/// a setting that is not a number, or no setting at all gives 500.
pub proof fn lemma_polling_interval_follows_setting(n: u64, other: Seq<char>)
    requires
        parse_u64_spec(other) is None,
    ensures
        n >= 100 ==> polling_interval_spec(Some(decimal(n as nat))) == n,
        n < 100 ==> polling_interval_spec(Some(decimal(n as nat))) == 500,
        polling_interval_spec(Some(other)) == 500,
        polling_interval_spec(None) == 500,
{
    lemma_parse_decimal_roundtrip(n);
}

/// An on/off setting is on exactly when it is set to `1`.
pub fn setting_enabled(raw: Option<&str>) -> (res: bool)
    ensures
        res <==> (setting_view(raw) == Some(seq!['1'])),
{
    match raw {
        Some(r) => {
            let one = String::from_str("1");
            proof {
                reveal_strlit("1");
            }
            assert(one@ =~= seq!['1']);
            String::from_str(r).eq(&one)
        },
        None => false,
    }
}

/// The key used when no encryption key is set.
pub open spec fn default_key_spec() -> Seq<char> {
    seq!['c', 'l', 'i', 'p', '-', 'v', 'e', 'r', 's', 'e', '-', 'd', 'e', 'f', 'a', 'u', 'l', 't', '-', 'k', 'e', 'y']
}

/// The encryption key: the setting when set, the default key otherwise.
pub fn encryption_key(raw: Option<&str>) -> (res: String)
    ensures
        res@ == match setting_view(raw) {
            Some(r) => r,
            None => default_key_spec(),
        },
{
    match raw {
        Some(r) => String::from_str(r),
        None => {
            let k = String::from_str("clip-verse-default-key");
            proof {
                reveal_strlit("clip-verse-default-key");
            }
            assert(k@ =~= default_key_spec());
            k
        },
    }
}

} // verus!

verus! {

/// Whether `pixels` can be read as an RGBA image of the given size.
///
/// Trusted: calls `image::ImageBuffer::<Rgba<u8>, _>::from_raw`, whose source
/// accepts the buffer exactly when 4 * width and 4 * width * height are
/// computed in `usize` without overflow and the latter is at most the number
/// of bytes given.
#[verifier::external_body]
fn rgba_image_fits(width: u32, height: u32, pixels: &[u8]) -> (res: bool)
    ensures
        res <==> rgba_fits(width, height, pixels@.len()),
{
    image::ImageBuffer::<image::Rgba<u8>, &[u8]>::from_raw(width, height, pixels).is_some()
}

/// `len` bytes hold an RGBA image of the given size: 4 * width and
/// 4 * width * height fit in a `usize`, and the latter is at most `len`.
pub open spec fn rgba_fits(width: u32, height: u32, len: nat) -> bool {
    4 * width <= usize::MAX && 4 * width * height <= usize::MAX && 4 * width * height <= len
}

/// The RGBA pixels of the 256 x 256 thumbnail of an RGBA image.
pub uninterp spec fn thumbnail_pixels(width: u32, height: u32, pixels: Seq<u8>) -> Seq<u8>;

/// Resizes an RGBA image to the 256 x 256 thumbnail.
///
/// Trusted: builds the image with `image::ImageBuffer::from_raw` (which
/// accepts the pixels, as the `requires` asks) and calls
/// `image::imageops::resize` to 256 x 256 with the `Triangle` filter, whose
/// source depends on its arguments alone and makes a 256 x 256 image, also
/// from an empty one. The claim is that the result's pixels are
/// `thumbnail_pixels` of the arguments, 256 * 256 * 4 bytes.
#[verifier::external_body]
fn make_thumbnail(width: u32, height: u32, pixels: &[u8]) -> (res: Vec<u8>)
    requires
        rgba_fits(width, height, pixels@.len()),
    ensures
        res@ == thumbnail_pixels(width, height, pixels@),
        res@.len() == 256 * 256 * 4,
{
    let image = image::ImageBuffer::<image::Rgba<u8>, &[u8]>::from_raw(width, height, pixels).unwrap();
    image::imageops::resize(&image, 256, 256, image::imageops::FilterType::Triangle).into_raw()
}

/// Where the monitor files what it saves, and what it makes besides the image.
#[derive(Debug, Clone, PartialEq, Eq)]
pub struct MonitorConfig {
    /// Directory of the saved images.
    pub raw_dir: String,
    /// Directory of the thumbnails.
    pub thumbnail_dir: String,
    /// Directory of the encrypted copies.
    pub encrypted_dir: String,
    /// Whether a thumbnail is made of each new image.
    pub make_thumbnails: bool,
    /// Whether an encrypted copy is made of each new image.
    pub encrypt: bool,
    /// The encryption key.
    pub key: String,
}

/// An image read from the clipboard: its size and its RGBA pixel bytes.
#[derive(Debug, Clone, PartialEq, Eq)]
pub struct ClipboardImage {
    pub width: usize,
    pub height: usize,
    pub pixels: Vec<u8>,
}

/// What the caller has to do next for the current tick.
#[derive(PartialEq, Eq, Structural, Clone, Copy, Debug)]
pub enum TickStage {
    /// Read the clipboard's text.
    ReadText,
    /// Read the clipboard's image (there was no text).
    ReadImage,
    /// Look up the text's fingerprint among the records.
    LookUpText,
    /// Record the text.
    RecordText,
    /// Look up the image's fingerprint among the records.
    LookUpImage,
    /// Read the clock (milliseconds since the Unix epoch).
    ReadClock,
    /// Save the image as a PNG file.
    SaveImage,
    /// Save a thumbnail of the image.
    SaveThumbnail,
    /// Read back the saved image file.
    ReadSavedImage,
    /// Write the encrypted copy.
    WriteEncrypted,
    /// Record the image.
    RecordImage,
    /// Nothing more to do this tick.
    Finished,
}

/// How a tick ended.
#[derive(Debug, Clone, PartialEq, Eq)]
pub enum TickOutcome {
    /// Nothing was recorded: no content, blank text, or already recorded.
    NothingNew,
    /// A new text was recorded.
    TextRecorded,
    /// A new image was saved at this path and recorded.
    ImageRecorded(String),
    /// The clipboard's pixels do not make an image of the stated size.
    ImageUnreadable,
    /// A lookup, a file write or a database write failed.
    Failed,
}

/// The record to store for a new image.
#[derive(Debug, Clone, PartialEq, Eq)]
pub struct ImageRecordRequest {
    pub file_path: String,
    pub thumbnail_path: Option<String>,
    pub encrypted_path: Option<String>,
    pub width: i64,
    pub height: i64,
    pub content_size: i64,
    pub content_hash: String,
    pub is_encrypted: bool,
}

/// The next thing the caller does, and what it carries.
#[derive(Debug, Clone, PartialEq, Eq)]
pub enum MonitorAction {
    ReadImage,
    LookUpText(String),
    RecordText { content: String, content_hash: String },
    LookUpImage(String),
    ReadClock,
    SaveImage { dir: String, path: String, width: u32, height: u32 },
    SaveThumbnail { dir: String, path: String, pixels: Vec<u8> },
    ReadSavedImage { path: String },
    WriteEncrypted { path: String, bytes: Vec<u8> },
    RecordImage(ImageRecordRequest),
    Finish(TickOutcome),
}

/// One tick of the monitor.
pub struct Tick {
    pub stage: TickStage,
    pub config: MonitorConfig,
    /// The trimmed text being recorded.
    pub content: String,
    /// The fingerprint of what is being recorded.
    pub hash: String,
    pub width: usize,
    pub height: usize,
    /// Whether the image's pixels make an image of its size.
    pub fits: bool,
    /// The image's pixel bytes.
    pub pixels: Vec<u8>,
    /// Directory the image is saved in: the raw image directory's
    /// `YYYY/MM` subdirectory for the date it is saved.
    pub image_dir: String,
    /// Directory the thumbnail is saved in, dated the same way.
    pub thumbnail_dir: String,
    pub raw_path: String,
    pub thumbnail_target: String,
    pub encrypted_target: String,
    pub thumbnail_path: Option<String>,
    pub encrypted_path: Option<String>,
}

/// The fingerprint under which a clipboard text is recorded: that of its
/// UTF-8 bytes once leading and trailing white space is removed.
pub open spec fn clipboard_text_fingerprint(text: Seq<char>) -> Seq<char> {
    hex_lower_spec(sha256_digest(vstd::utf8::encode_utf8(trim_spec(text))))
}

/// Copies of a text that differ only in leading or trailing white space are
/// the same content: they have the same fingerprint, so once one is recorded
/// the others are found by the lookup and not recorded again.
pub proof fn lemma_surrounding_white_space_ignored(a: Seq<char>, b: Seq<char>)
    requires
        trim_spec(a) == trim_spec(b),
    ensures
        clipboard_text_fingerprint(a) == clipboard_text_fingerprint(b),
{
}

/// The name of a saved image: the time in milliseconds, `_`, the first 16
/// characters of its fingerprint, and `.png`.
pub open spec fn image_file_name_spec(now_ms: i64, hash: Seq<char>) -> Seq<char> {
    signed_decimal(now_ms as int) + seq!['_'] + hash.subrange(0, 16) + seq!['.', 'p', 'n', 'g']
}

/// The `YYYY/MM` subdirectory of `base` for a date: the year in decimal,
/// then the month in two digits.
pub open spec fn dated_dir_spec(base: Seq<char>, year: int, month: nat) -> Seq<char> {
    path_join(path_join(base, signed_decimal(year)), decimal_pad2(month))
}

/// Builds the `YYYY/MM` subdirectory of `base`.
fn dated_dir(base: &str, year: i32, month: u32) -> (res: String)
    ensures
        res@ == dated_dir_spec(base@, year as int, month as nat),
{
    let mut y = String::new();
    push_signed_decimal(&mut y, year as i64);
    let mut m = String::new();
    push_decimal_pad2(&mut m, month as u64);
    assert(y@ =~= signed_decimal(year as int));
    assert(m@ =~= decimal_pad2(month as nat));
    let yd = join_path(base, y.as_str());
    join_path(yd.as_str(), m.as_str())
}

/// The name of a thumbnail: `thumb_` and the image's name.
pub open spec fn thumbnail_name_spec(file_name: Seq<char>) -> Seq<char> {
    seq!['t', 'h', 'u', 'm', 'b', '_'] + file_name
}

/// The name of an encrypted copy: the image's name and `.enc`.
pub open spec fn encrypted_name_spec(file_name: Seq<char>) -> Seq<char> {
    file_name + seq!['.', 'e', 'n', 'c']
}

/// The size recorded for an image: four bytes per pixel.
pub open spec fn image_content_size_spec(width: usize, height: usize) -> i64 {
    (width * height * 4) as i64
}

/// The view of an optional path.
pub open spec fn opt_view(p: Option<String>) -> Option<Seq<char>> {
    match p {
        Some(s) => Some(s@),
        None => None,
    }
}

/// The record a tick stores for its image once the files are written.
pub open spec fn image_request_matches(t: Tick, req: ImageRecordRequest) -> bool {
    &&& req.file_path@ == t.raw_path@
    &&& opt_view(req.thumbnail_path) == opt_view(t.thumbnail_path)
    &&& opt_view(req.encrypted_path) == opt_view(t.encrypted_path)
    &&& req.width == t.width as i64
    &&& req.height == t.height as i64
    &&& req.content_size == image_content_size_spec(t.width, t.height)
    &&& req.content_hash@ == t.hash@
    &&& req.is_encrypted == (t.encrypted_path is Some)
}

fn clone_opt(p: &Option<String>) -> (res: Option<String>)
    ensures
        opt_view(res) == opt_view(*p),
{
    match p {
        Some(s) => Some(s.clone()),
        None => None,
    }
}

/// What follows the thumbnail step, from tick `t`: reading back the saved
/// image when encryption is on, recording the image otherwise.
pub open spec fn after_thumbnail_spec(t: Tick, next: Tick, action: MonitorAction) -> bool {
    &&& next == (Tick { stage: next.stage, ..t })
    &&& t.config.encrypt ==> {
        &&& next.stage == TickStage::ReadSavedImage
        &&& action matches MonitorAction::ReadSavedImage { path } && path@ == t.raw_path@
    }
    &&& !t.config.encrypt ==> {
        &&& next.stage == TickStage::RecordImage
        &&& action matches MonitorAction::RecordImage(req) && image_request_matches(t, req)
    }
}

impl Tick {
    /// A tick that starts by reading the clipboard's text.
    pub fn new(config: MonitorConfig) -> (res: Tick)
        ensures
            res.stage == TickStage::ReadText,
            res.wf(),
            res.config == config,
            res.thumbnail_path is None,
            res.encrypted_path is None,
    {
        Tick {
            stage: TickStage::ReadText,
            config,
            content: String::new(),
            hash: String::new(),
            width: 0,
            height: 0,
            fits: false,
            pixels: Vec::new(),
            image_dir: String::new(),
            thumbnail_dir: String::new(),
            raw_path: String::new(),
            thumbnail_target: String::new(),
            encrypted_target: String::new(),
            thumbnail_path: None,
            encrypted_path: None,
        }
    }

    /// Takes the clipboard's text (`None` when it holds none). A blank text
    /// ends the tick without looking at images; a text goes to the lookup
    /// trimmed, under the fingerprint of its UTF-8 bytes.
    pub fn on_text(&mut self, text: Option<&str>) -> (action: MonitorAction)
        requires
            old(self).stage == TickStage::ReadText,
        ensures
            final(self).wf(),
            match text {
                None => {
                    &&& action is ReadImage
                    &&& *final(self) == (Tick { stage: TickStage::ReadImage, ..*old(self) })
                },
                Some(t) => if trim_spec(t@).len() == 0 {
                    &&& action matches MonitorAction::Finish(TickOutcome::NothingNew)
                    &&& *final(self) == (Tick { stage: TickStage::Finished, ..*old(self) })
                } else {
                    &&& action matches MonitorAction::LookUpText(h)
                        && h@ == clipboard_text_fingerprint(t@)
                    &&& *final(self) == (Tick {
                        stage: TickStage::LookUpText,
                        content: final(self).content,
                        hash: final(self).hash,
                        ..*old(self)
                    })
                    &&& final(self).content@ == trim_spec(t@)
                    &&& final(self).hash@ == clipboard_text_fingerprint(t@)
                },
            },
    {
        match text {
            None => {
                self.stage = TickStage::ReadImage;
                MonitorAction::ReadImage
            },
            Some(t) => {
                let trimmed = str_trim(t);
                if trimmed.is_empty() {
                    self.stage = TickStage::Finished;
                    MonitorAction::Finish(TickOutcome::NothingNew)
                } else {
                    let hash = text_fingerprint(trimmed);
                    self.content = String::from_str(trimmed);
                    self.hash = hash.clone();
                    self.stage = TickStage::LookUpText;
                    MonitorAction::LookUpText(hash)
                }
            },
        }
    }

    /// Takes the clipboard's image (`None` when it holds none). An image goes
    /// to the lookup under the fingerprint of its size and pixels.
    pub fn on_image(&mut self, image: Option<&ClipboardImage>) -> (action: MonitorAction)
        requires
            old(self).stage == TickStage::ReadImage,
            image matches Some(i) ==> i.width * i.height * 4 <= usize::MAX,
        ensures
            final(self).wf(),
            match image {
                None => {
                    &&& action matches MonitorAction::Finish(TickOutcome::NothingNew)
                    &&& *final(self) == (Tick { stage: TickStage::Finished, ..*old(self) })
                },
                Some(i) => {
                    let h = hex_lower_spec(sha256_digest(image_fingerprint_input(i.width as nat, i.height as nat, i.pixels@)));
                    &&& action matches MonitorAction::LookUpImage(a) && a@ == h
                    &&& *final(self) == (Tick {
                        stage: TickStage::LookUpImage,
                        hash: final(self).hash,
                        width: i.width,
                        height: i.height,
                        fits: final(self).fits,
                        pixels: final(self).pixels,
                        ..*old(self)
                    })
                    &&& final(self).pixels@ == i.pixels@
                    &&& final(self).hash@ == h
                    &&& final(self).width * final(self).height * 4 <= usize::MAX
                    &&& final(self).fits == rgba_fits(
                        #[verifier::truncate] (i.width as u32),
                        #[verifier::truncate] (i.height as u32),
                        i.pixels@.len(),
                    )
                },
            },
    {
        match image {
            None => {
                self.stage = TickStage::Finished;
                MonitorAction::Finish(TickOutcome::NothingNew)
            },
            Some(i) => {
                let hash = image_fingerprint(i.width, i.height, i.pixels.as_slice());
                let w: u32 = #[verifier::truncate] (i.width as u32);
                let h: u32 = #[verifier::truncate] (i.height as u32);
                self.fits = rgba_image_fits(w, h, i.pixels.as_slice());
                self.pixels = vstd::slice::slice_to_vec(i.pixels.as_slice());
                self.width = i.width;
                self.height = i.height;
                self.hash = hash.clone();
                self.stage = TickStage::LookUpImage;
                MonitorAction::LookUpImage(hash)
            },
        }
    }

    /// Takes the result of looking up the fingerprint: `Some(true)` when a
    /// record with it exists, `Some(false)` when none does, `None` when the
    /// lookup failed. Only what is not yet recorded goes further.
    pub fn on_lookup(&mut self, found: Option<bool>) -> (action: MonitorAction)
        requires
            old(self).wf(),
            old(self).stage == TickStage::LookUpText || old(self).stage == TickStage::LookUpImage,
        ensures
            final(self).wf(),
            *final(self) == (Tick { stage: final(self).stage, ..*old(self) }),
            found == Some(true) ==> (action matches MonitorAction::Finish(TickOutcome::NothingNew)
                && final(self).stage == TickStage::Finished),
            found is None ==> (action matches MonitorAction::Finish(TickOutcome::Failed)
                && final(self).stage == TickStage::Finished),
            found == Some(false) && old(self).stage == TickStage::LookUpText ==> {
                &&& action matches MonitorAction::RecordText { content, content_hash }
                    && content@ == old(self).content@ && content_hash@ == old(self).hash@
                &&& final(self).stage == TickStage::RecordText
            },
            found == Some(false) && old(self).stage == TickStage::LookUpImage ==> {
                &&& action is ReadClock
                &&& final(self).stage == TickStage::ReadClock
            },
    {
        match found {
            Some(true) => {
                self.stage = TickStage::Finished;
                MonitorAction::Finish(TickOutcome::NothingNew)
            },
            None => {
                self.stage = TickStage::Finished;
                MonitorAction::Finish(TickOutcome::Failed)
            },
            Some(false) => {
                if self.stage == TickStage::LookUpText {
                    self.stage = TickStage::RecordText;
                    MonitorAction::RecordText { content: self.content.clone(), content_hash: self.hash.clone() }
                } else {
                    self.stage = TickStage::ReadClock;
                    MonitorAction::ReadClock
                }
            },
        }
    }

    /// What every tick keeps once an image is under way: its fingerprint is
    /// 64 characters long, its byte size fits in a `usize`, `fits` says
    /// whether its pixels make an RGBA image of its size, and from the saving
    /// of the image on they do.
    pub open spec fn wf(self) -> bool {
        match self.stage {
            TickStage::ReadText | TickStage::ReadImage | TickStage::LookUpText | TickStage::RecordText
            | TickStage::Finished => true,
            _ => {
                &&& self.hash@.len() == 64
                &&& self.width * self.height * 4 <= usize::MAX
                &&& self.fits == rgba_fits(
                    #[verifier::truncate] (self.width as u32),
                    #[verifier::truncate] (self.height as u32),
                    self.pixels@.len(),
                )
                &&& (self.stage != TickStage::LookUpImage && self.stage != TickStage::ReadClock) ==> self.fits
            },
        }
    }

    /// Takes a clock reading. The image file is named after its time in
    /// milliseconds and the fingerprint, and filed with its thumbnail under the
    /// `YYYY/MM` subdirectories of the image and thumbnail directories for the
    /// reading's date. Pixels that do not make an image of the stated size end
    /// the tick; otherwise the image is saved.
    pub fn on_clock(&mut self, now: &ClockReading) -> (action: MonitorAction)
        requires
            old(self).stage == TickStage::ReadClock,
            old(self).wf(),
        ensures
            final(self).wf(),
            !old(self).fits ==> {
                &&& action matches MonitorAction::Finish(TickOutcome::ImageUnreadable)
                &&& *final(self) == (Tick { stage: TickStage::Finished, ..*old(self) })
            },
            old(self).fits ==> {
                let name = image_file_name_spec(now.timestamp_millis, old(self).hash@);
                &&& *final(self) == (Tick {
                    stage: TickStage::SaveImage,
                    image_dir: final(self).image_dir,
                    thumbnail_dir: final(self).thumbnail_dir,
                    raw_path: final(self).raw_path,
                    thumbnail_target: final(self).thumbnail_target,
                    encrypted_target: final(self).encrypted_target,
                    ..*old(self)
                })
                &&& final(self).image_dir@ == dated_dir_spec(old(self).config.raw_dir@, now.year as int, now.month as nat)
                &&& final(self).thumbnail_dir@ == dated_dir_spec(
                    old(self).config.thumbnail_dir@,
                    now.year as int,
                    now.month as nat,
                )
                &&& final(self).raw_path@ == path_join(final(self).image_dir@, name)
                &&& final(self).thumbnail_target@ == path_join(final(self).thumbnail_dir@, thumbnail_name_spec(name))
                &&& final(self).encrypted_target@ == path_join(
                    old(self).config.encrypted_dir@,
                    encrypted_name_spec(name),
                )
                &&& action matches MonitorAction::SaveImage { dir, path, width, height }
                    && dir@ == final(self).image_dir@
                    && path@ == final(self).raw_path@
                    && width == #[verifier::truncate] (old(self).width as u32)
                    && height == #[verifier::truncate] (old(self).height as u32)
            },
    {
        let mut name = String::new();
        push_signed_decimal(&mut name, now.timestamp_millis);
        string_push(&mut name, '_');
        name.append(self.hash.as_str().substring_char(0, 16));
        name.append(".png");
        proof {
            reveal_strlit(".png");
        }
        assert(name@ =~= image_file_name_spec(now.timestamp_millis, self.hash@));
        if !self.fits {
            self.stage = TickStage::Finished;
            return MonitorAction::Finish(TickOutcome::ImageUnreadable);
        }
        let mut thumb = String::from_str("thumb_");
        thumb.append(name.as_str());
        proof {
            reveal_strlit("thumb_");
        }
        assert(thumb@ =~= thumbnail_name_spec(name@));
        let mut enc = name.clone();
        enc.append(".enc");
        proof {
            reveal_strlit(".enc");
        }
        assert(enc@ =~= encrypted_name_spec(name@));
        self.image_dir = dated_dir(self.config.raw_dir.as_str(), now.year, now.month);
        self.thumbnail_dir = dated_dir(self.config.thumbnail_dir.as_str(), now.year, now.month);
        self.raw_path = join_path(self.image_dir.as_str(), name.as_str());
        self.thumbnail_target = join_path(self.thumbnail_dir.as_str(), thumb.as_str());
        self.encrypted_target = join_path(self.config.encrypted_dir.as_str(), enc.as_str());
        self.stage = TickStage::SaveImage;
        let w: u32 = #[verifier::truncate] (self.width as u32);
        let h: u32 = #[verifier::truncate] (self.height as u32);
        MonitorAction::SaveImage { dir: self.image_dir.clone(), path: self.raw_path.clone(), width: w, height: h }
    }

    /// The record of the image as its files now stand.
    fn image_request(&self) -> (req: ImageRecordRequest)
        requires
            self.width * self.height * 4 <= usize::MAX,
        ensures
            image_request_matches(*self, req),
    {
        let size: usize = self.width * self.height * 4;
        ImageRecordRequest {
            file_path: self.raw_path.clone(),
            thumbnail_path: clone_opt(&self.thumbnail_path),
            encrypted_path: clone_opt(&self.encrypted_path),
            width: #[verifier::truncate] (self.width as i64),
            height: #[verifier::truncate] (self.height as i64),
            content_size: #[verifier::truncate] (size as i64),
            content_hash: self.hash.clone(),
            is_encrypted: self.encrypted_path.is_some(),
        }
    }

    /// After the thumbnail step: read back the saved image for encryption
    /// when that is on, record the image otherwise.
    fn after_thumbnail(&mut self) -> (action: MonitorAction)
        requires
            old(self).wf(),
            old(self).stage == TickStage::SaveImage || old(self).stage == TickStage::SaveThumbnail,
        ensures
            final(self).wf(),
            after_thumbnail_spec(*old(self), *final(self), action),
    {
        if self.config.encrypt {
            self.stage = TickStage::ReadSavedImage;
            MonitorAction::ReadSavedImage { path: self.raw_path.clone() }
        } else {
            let req = self.image_request();
            self.stage = TickStage::RecordImage;
            MonitorAction::RecordImage(req)
        }
    }

    /// Takes whether the last write (a record, the image file, the thumbnail
    /// or the encrypted copy) succeeded.
    ///
    /// A failed record or image file ends the tick as failed. A thumbnail or
    /// an encrypted copy that could not be written is left out of the record,
    /// which then says the image is not encrypted.
    pub fn on_written(&mut self, ok: bool) -> (action: MonitorAction)
        requires
            old(self).wf(),
            old(self).stage == TickStage::RecordText || old(self).stage == TickStage::SaveImage
                || old(self).stage == TickStage::SaveThumbnail || old(self).stage
                == TickStage::WriteEncrypted || old(self).stage == TickStage::RecordImage,
        ensures
            final(self).wf(),
            old(self).stage == TickStage::RecordText ==> {
                &&& *final(self) == (Tick { stage: TickStage::Finished, ..*old(self) })
                &&& ok ==> (action matches MonitorAction::Finish(TickOutcome::TextRecorded))
                &&& !ok ==> (action matches MonitorAction::Finish(TickOutcome::Failed))
            },
            old(self).stage == TickStage::RecordImage ==> {
                &&& *final(self) == (Tick { stage: TickStage::Finished, ..*old(self) })
                &&& ok ==> (action matches MonitorAction::Finish(TickOutcome::ImageRecorded(p))
                    && p@ == old(self).raw_path@)
                &&& !ok ==> (action matches MonitorAction::Finish(TickOutcome::Failed))
            },
            old(self).stage == TickStage::SaveImage && !ok ==> {
                &&& *final(self) == (Tick { stage: TickStage::Finished, ..*old(self) })
                &&& action matches MonitorAction::Finish(TickOutcome::Failed)
            },
            old(self).stage == TickStage::SaveImage && ok && old(self).config.make_thumbnails ==> {
                &&& *final(self) == (Tick { stage: TickStage::SaveThumbnail, ..*old(self) })
                &&& action matches MonitorAction::SaveThumbnail { dir, path, pixels }
                    && dir@ == old(self).thumbnail_dir@ && path@ == old(self).thumbnail_target@
                    && pixels@ == thumbnail_pixels(
                        #[verifier::truncate] (old(self).width as u32),
                        #[verifier::truncate] (old(self).height as u32),
                        old(self).pixels@,
                    )
            },
            old(self).stage == TickStage::SaveImage && ok && !old(self).config.make_thumbnails
                ==> after_thumbnail_spec(*old(self), *final(self), action),
            old(self).stage == TickStage::SaveThumbnail ==> {
                let t = Tick {
                    thumbnail_path: if ok { Some(old(self).thumbnail_target) } else { None },
                    ..*old(self)
                };
                after_thumbnail_spec(t, *final(self), action)
            },
            old(self).stage == TickStage::WriteEncrypted ==> {
                let t = Tick {
                    encrypted_path: if ok { Some(old(self).encrypted_target) } else { None },
                    ..*old(self)
                };
                &&& *final(self) == (Tick { stage: TickStage::RecordImage, ..t })
                &&& action matches MonitorAction::RecordImage(req) && image_request_matches(t, req)
            },
    {
        if self.stage == TickStage::RecordText {
            self.stage = TickStage::Finished;
            if ok {
                MonitorAction::Finish(TickOutcome::TextRecorded)
            } else {
                MonitorAction::Finish(TickOutcome::Failed)
            }
        } else if self.stage == TickStage::RecordImage {
            self.stage = TickStage::Finished;
            if ok {
                MonitorAction::Finish(TickOutcome::ImageRecorded(self.raw_path.clone()))
            } else {
                MonitorAction::Finish(TickOutcome::Failed)
            }
        } else if self.stage == TickStage::SaveImage {
            if !ok {
                self.stage = TickStage::Finished;
                MonitorAction::Finish(TickOutcome::Failed)
            } else if self.config.make_thumbnails {
                self.stage = TickStage::SaveThumbnail;
                let w: u32 = #[verifier::truncate] (self.width as u32);
                let h: u32 = #[verifier::truncate] (self.height as u32);
                let thumb = make_thumbnail(w, h, self.pixels.as_slice());
                MonitorAction::SaveThumbnail {
                    dir: self.thumbnail_dir.clone(),
                    path: self.thumbnail_target.clone(),
                    pixels: thumb,
                }
            } else {
                self.after_thumbnail()
            }
        } else if self.stage == TickStage::SaveThumbnail {
            self.thumbnail_path = if ok { Some(self.thumbnail_target.clone()) } else { None };
            self.after_thumbnail()
        } else {
            self.encrypted_path = if ok { Some(self.encrypted_target.clone()) } else { None };
            let req = self.image_request();
            self.stage = TickStage::RecordImage;
            MonitorAction::RecordImage(req)
        }
    }

    /// Takes the bytes of the saved image file read back (`None` when it
    /// could not be read): they are encrypted with AES-256-GCM under the key
    /// and written as the encrypted copy; without them (or for more bytes than
    /// AES-GCM takes) the image is recorded unencrypted.
    pub fn on_file_read(&mut self, bytes: Option<Vec<u8>>) -> (action: MonitorAction)
        requires
            old(self).wf(),
            old(self).stage == TickStage::ReadSavedImage,
        ensures
            final(self).wf(),
            match bytes {
                Some(b) if b@.len() <= max_plaintext_len() => {
                    &&& *final(self) == (Tick { stage: TickStage::WriteEncrypted, ..*old(self) })
                    &&& action matches MonitorAction::WriteEncrypted { path, bytes: out }
                        && path@ == old(self).encrypted_target@
                        && out@ == encrypted_image_spec(b@, old(self).config.key@)
                        && decrypted_image_spec(out@, old(self).config.key@) == Some(b@)
                },
                _ => {
                    &&& *final(self) == (Tick { stage: TickStage::RecordImage, ..*old(self) })
                    &&& action matches MonitorAction::RecordImage(req) && image_request_matches(*old(self), req)
                },
            },
    {
        let sealed = match bytes {
            Some(b) => encrypt_image(b.as_slice(), self.config.key.as_str()),
            None => None,
        };
        match sealed {
            Some(out) => {
                self.stage = TickStage::WriteEncrypted;
                MonitorAction::WriteEncrypted { path: self.encrypted_target.clone(), bytes: out }
            },
            None => {
                let req = self.image_request();
                self.stage = TickStage::RecordImage;
                MonitorAction::RecordImage(req)
            },
        }
    }
}

/// An image record says the image is encrypted exactly when its encrypted
/// copy was written, and names that copy exactly then.
pub proof fn lemma_encrypted_flag_iff_copy_written(t: Tick, ok: bool, req: ImageRecordRequest)
    requires
        image_request_matches(
            Tick { encrypted_path: if ok { Some(t.encrypted_target) } else { None }, ..t },
            req,
        ),
    ensures
        req.is_encrypted == ok,
        req.encrypted_path is Some <==> ok,
        ok ==> req.encrypted_path->0@ == t.encrypted_target@,
{
}

} // verus!
