//! Image campaigns: how many images of which size a command gets, and what
//! each image shows.

use crate::campaign::{campaign, ceiling, ceiling_for, count_arg, least, read_count, resolve};
use crate::campaign::{CampaignSpec, Family, TierLimits};
use crate::message::opt_text;
use crate::text::{decimal, push_decimal, texts};
use crate::users::TrustTier;
use vstd::prelude::*;

verus! {

/// Width of an image, in pixels, where the command names none.
pub const DEFAULT_WIDTH: usize = 150;

/// Images of `imagespam` where the command names no count.
pub const DEFAULT_IMAGE_SPAM: usize = 3;

/// The numbers of an image campaign.
#[derive(Clone, Copy, Debug, PartialEq, Eq, Structural)]
pub struct ImageGeometry {
    pub spec: CampaignSpec,
    pub width: usize,
    pub height: usize,
    /// The width that the message claims for the image.
    pub claimed_width: usize,
    /// The height that the message claims for the image.
    pub claimed_height: usize,
    /// The font size for an image of the default width: the renderer scales
    /// it by `width / 150`.
    pub base_font_size: usize,
    pub with_thumbnail: bool,
}

/// An image campaign.
pub struct ImagePlan {
    pub geometry: ImageGeometry,
    /// The text to show on a single image in place of nothing.
    pub text_override: Option<String>,
}

/// The number that argument `k` gives, or `default`.
pub open spec fn size_arg(args: Seq<Seq<char>>, k: int, default: usize) -> usize {
    match count_arg(args, k) {
        Some(v) => v,
        None => default,
    }
}

/// The numbers of the campaign for `desired` images, where the arguments
/// from place `first` on are width, height, claimed width and claimed
/// height. Width and height are at most the configured size; a missing
/// height is the width, and a missing claimed size is the real one.
pub open spec fn image_geometry(
    desired: usize,
    args: Seq<Seq<char>>,
    first: int,
    tier: TrustTier,
    room_is_public: bool,
    limits: TierLimits,
    with_thumbnail: bool,
) -> ImageGeometry {
    let spec = campaign(
        Some(desired),
        None,
        desired,
        ceiling(Family::Image, tier, room_is_public, limits),
        limits.delay_limit,
    );
    let max = limits.image_max_size as int;
    let width = least(size_arg(args, first, DEFAULT_WIDTH) as int, max) as usize;
    let height = least(size_arg(args, first + 1, width) as int, max) as usize;
    ImageGeometry {
        spec,
        width,
        height,
        claimed_width: size_arg(args, first + 2, width),
        claimed_height: size_arg(args, first + 3, height),
        base_font_size: if spec.resolved_count == 1 {
            42
        } else {
            64
        },
        with_thumbnail,
    }
}

/// The text for a single image: the argument after the four sizes.
pub open spec fn image_text_override(args: Seq<Seq<char>>, first: int) -> Option<Seq<char>> {
    if 0 <= first + 4 < args.len() {
        Some(args[first + 4])
    } else {
        None
    }
}

fn read_size(args: &Vec<String>, k: usize, default: usize) -> (r: usize)
    ensures
        r == size_arg(texts(args@), k as int, default),
{
    match read_count(args, k) {
        Some(v) => v,
        None => default,
    }
}

fn at_most(a: usize, b: usize) -> (r: usize)
    ensures
        r == least(a as int, b as int),
{
    if a < b {
        a
    } else {
        b
    }
}

/// Plans an image campaign of `desired_count` images. The sizes start at
/// the second argument where `after_count`, else at the first.
pub fn handle_image_spam_with_count(
    desired_count: usize,
    args: &Vec<String>,
    after_count: bool,
    tier: TrustTier,
    room_is_public: bool,
    limits: &TierLimits,
    with_thumbnail: bool,
) -> (r: ImagePlan)
    ensures
        r.geometry == image_geometry(
            desired_count,
            texts(args@),
            if after_count {
                1
            } else {
                0
            },
            tier,
            room_is_public,
            *limits,
            with_thumbnail,
        ),
        opt_text(r.text_override) == image_text_override(
            texts(args@),
            if after_count {
                1
            } else {
                0
            },
        ),
{
    let first: usize = if after_count {
        1
    } else {
        0
    };
    let spec = resolve(
        Some(desired_count),
        None,
        desired_count,
        ceiling_for(Family::Image, tier, room_is_public, limits),
        limits.delay_limit,
    );
    let width = at_most(read_size(args, first, DEFAULT_WIDTH), limits.image_max_size);
    let height = at_most(read_size(args, first + 1, width), limits.image_max_size);
    let claimed_width = read_size(args, first + 2, width);
    let claimed_height = read_size(args, first + 3, height);
    let text_override = if first + 4 < args.len() {
        Some(args[first + 4].clone())
    } else {
        None
    };
    ImagePlan {
        geometry: ImageGeometry {
            spec,
            width,
            height,
            claimed_width,
            claimed_height,
            base_font_size: if spec.resolved_count == 1 {
                42
            } else {
                64
            },
            with_thumbnail,
        },
        text_override,
    }
}

/// Plans `image [count [width [height [claimed width [claimed height
/// [text]]]]]]` and `imagespam` with the same arguments: the count is the
/// first argument, or `default_count`.
pub fn handle_image_spam(
    args: &Vec<String>,
    default_count: usize,
    tier: TrustTier,
    room_is_public: bool,
    limits: &TierLimits,
) -> (r: ImagePlan)
    ensures
        r.geometry == image_geometry(
            size_arg(texts(args@), 0, default_count),
            texts(args@),
            1,
            tier,
            room_is_public,
            *limits,
            false,
        ),
        opt_text(r.text_override) == image_text_override(texts(args@), 1),
{
    let desired = read_size(args, 0, default_count);
    handle_image_spam_with_count(desired, args, true, tier, room_is_public, limits, false)
}

/// The thumbnail of an image: half its size, with a text of its own.
pub struct Thumbnail {
    pub text: String,
    pub width: usize,
    pub height: usize,
}

/// One image of a campaign.
pub struct ImageItem {
    /// The text on the image, if any.
    pub text: Option<String>,
    pub file_name: String,
    pub thumbnail: Option<Thumbnail>,
}

/// The text on image `number` (counted from 1): a single image shows the
/// text of the command, if it gave one; each of several shows its number.
pub open spec fn image_text(count: usize, text_override: Option<Seq<char>>, number: usize) -> Option<
    Seq<char>,
> {
    if count == 1 {
        text_override
    } else {
        Some(decimal(number as nat))
    }
}

/// The text on the thumbnail of an image with the given text.
pub open spec fn thumbnail_text(text: Option<Seq<char>>) -> Seq<char> {
    match text {
        Some(t) => "t."@ + t,
        None => "t."@,
    }
}

/// Image `number` of a campaign, counted from 1.
pub fn image_item(plan: &ImagePlan, number: usize) -> (r: ImageItem)
    ensures
        opt_text(r.text) == image_text(
            plan.geometry.spec.resolved_count,
            opt_text(plan.text_override),
            number,
        ),
        r.file_name@ == decimal(number as nat) + ".png"@,
        match r.thumbnail {
            Some(t) => plan.geometry.with_thumbnail && t.text@ == thumbnail_text(opt_text(r.text))
                && t.width == plan.geometry.width / 2 && t.height == plan.geometry.height / 2,
            None => !plan.geometry.with_thumbnail,
        },
{
    let text: Option<String> = if plan.geometry.spec.resolved_count == 1 {
        match &plan.text_override {
            Some(t) => Some(t.clone()),
            None => None,
        }
    } else {
        let mut t = String::new();
        push_decimal(&mut t, number as u64);
        proof {
            assert(Seq::<char>::empty() + decimal(number as nat) =~= decimal(number as nat));
        }
        Some(t)
    };
    let mut file_name = String::new();
    push_decimal(&mut file_name, number as u64);
    file_name.append(".png");
    proof {
        assert(Seq::<char>::empty() + decimal(number as nat) =~= decimal(number as nat));
    }
    let thumbnail = if plan.geometry.with_thumbnail {
        let mut label = String::from_str("t.");
        match &text {
            Some(t) => {
                label.append(t.as_str());
            },
            None => {},
        }
        Some(Thumbnail { text: label, width: plan.geometry.width / 2, height: plan.geometry.height / 2 })
    } else {
        None
    };
    ImageItem { text, file_name, thumbnail }
}

/// How the making of a thumbnail ended.
pub enum ThumbnailOutcome {
    /// The thumbnail was rendered and uploaded: its address and its size
    /// in bytes.
    Uploaded { uri: String, size: usize },
    /// The thumbnail could not be rendered.
    RenderFailed,
    /// The thumbnail could not be uploaded.
    UploadFailed,
}

/// What an image says of its thumbnail.
pub struct ThumbnailRef {
    pub uri: String,
    pub width: usize,
    pub height: usize,
    /// The size of the thumbnail in bytes.
    pub size: usize,
}

/// What the image says of its thumbnail, given how the making of the
/// thumbnail ended: its address and sizes where it was uploaded, and
/// nothing where rendering or upload failed. The image itself is sent
/// either way.
pub fn thumbnail_ref(thumbnail: &Thumbnail, outcome: ThumbnailOutcome) -> (r: Option<ThumbnailRef>)
    ensures
        match outcome {
            ThumbnailOutcome::Uploaded { uri, size } => r matches Some(t) && t.uri == uri
                && t.size == size && t.width == thumbnail.width && t.height == thumbnail.height,
            _ => r is None,
        },
{
    match outcome {
        ThumbnailOutcome::Uploaded { uri, size } => Some(
            ThumbnailRef { uri, width: thumbnail.width, height: thumbnail.height, size },
        ),
        _ => None,
    }
}

/// How the work on one image ended.
#[derive(Clone, Copy, Debug, PartialEq, Eq, Structural)]
pub enum ImageOutcome {
    /// The image was sent, with or without a thumbnail.
    Sent,
    /// The image could not be rendered.
    RenderFailed,
    /// The image could not be uploaded.
    UploadFailed,
    /// The message with the image could not be sent.
    SendFailed,
}

/// What the task that runs an image campaign does next.
#[derive(Clone, Copy, Debug, PartialEq, Eq, Structural)]
pub enum ImageStep {
    /// Make and send image `number`, counted from 1.
    Make { number: usize },
    /// The campaign is over: every image was sent, or one failed.
    Finished,
}

/// The next step of an image campaign of which `sent` images went out and
/// the work on the last image ended as `last` says. The images go out in
/// order; an image that could not be rendered, uploaded or sent ends the
/// campaign.
pub open spec fn next_image(
    geometry: ImageGeometry,
    sent: usize,
    last: Option<ImageOutcome>,
) -> ImageStep {
    if (last is Some && last != Some(ImageOutcome::Sent)) || sent >= geometry.spec.resolved_count {
        ImageStep::Finished
    } else {
        ImageStep::Make { number: (sent + 1) as usize }
    }
}

/// The next step of an image campaign.
pub fn image_step(plan: &ImagePlan, sent: usize, last: Option<ImageOutcome>) -> (r: ImageStep)
    ensures
        r == next_image(plan.geometry, sent, last),
{
    let failed = match last {
        Some(ImageOutcome::Sent) => false,
        Some(_) => true,
        None => false,
    };
    if failed || sent >= plan.geometry.spec.resolved_count {
        ImageStep::Finished
    } else {
        ImageStep::Make { number: sent + 1 }
    }
}

/// The number of images sent after the work on one more image ended.
pub open spec fn sent_after(sent: usize, outcome: ImageOutcome) -> usize {
    if outcome == ImageOutcome::Sent && sent < usize::MAX {
        (sent + 1) as usize
    } else {
        sent
    }
}

/// Counts an image that was sent; an image that failed is not counted.
pub fn count_image(sent: usize, outcome: ImageOutcome) -> (r: usize)
    ensures
        r == sent_after(sent, outcome),
{
    match outcome {
        ImageOutcome::Sent => if sent < usize::MAX {
            sent + 1
        } else {
            sent
        },
        _ => sent,
    }
}

/// The lower-case hexadecimal digit for a number below 16.
pub open spec fn hex_digit(d: int) -> char {
    if d < 10 {
        ((48 + d) as u8) as char
    } else {
        ((87 + d) as u8) as char
    }
}

/// The colour for a random number: `#` and six hexadecimal digits that
/// write the number modulo `0xffffff`.
pub open spec fn background_text(random: u32) -> Seq<char> {
    let v = random as int % 0xffffff;
    seq![
        '#',
        hex_digit(v / 0x100000 % 16),
        hex_digit(v / 0x10000 % 16),
        hex_digit(v / 0x1000 % 16),
        hex_digit(v / 0x100 % 16),
        hex_digit(v / 0x10 % 16),
        hex_digit(v % 16),
    ]
}

fn hex_char(d: u32) -> (c: char)
    requires
        d < 16,
    ensures
        c == hex_digit(d as int),
{
    let b: u8 = d as u8;
    if b < 10 {
        (48 + b) as char
    } else {
        (87 + b) as char
    }
}

/// The background colour that a random number stands for.
pub fn background_color(random: u32) -> (s: String)
    ensures
        s@ == background_text(random),
{
    let v: u32 = random % 0xffffff;
    let mut s = String::new();
    s.push('#');
    s.push(hex_char(v / 0x100000 % 16));
    s.push(hex_char(v / 0x10000 % 16));
    s.push(hex_char(v / 0x1000 % 16));
    s.push(hex_char(v / 0x100 % 16));
    s.push(hex_char(v / 0x10 % 16));
    s.push(hex_char(v % 16));
    proof {
        assert(s@ =~= background_text(random));
    }
    s
}

/// `rand::random::<u32>()`: a number drawn from the thread's random
/// generator. Nothing is claimed of the number.
#[verifier::external_body]
fn random_u32() -> u32 {
    rand::random::<u32>()
}

/// A random background colour for an image.
pub fn random_background() -> (s: String)
    ensures
        exists|r: u32| s@ == background_text(r),
{
    background_color(random_u32())
}

} // verus!
