use vstd::prelude::*;
use vstd::string::StringExecFns;

use crate::errors::Error;

verus! {

#[verifier::external_type_specification]
#[verifier::external_body]
pub struct ExDynamicImage(image::DynamicImage);

/// Pixel width of a decoded image.
pub uninterp spec fn image_width(img: image::DynamicImage) -> u32;

/// Pixel height of a decoded image.
pub uninterp spec fn image_height(img: image::DynamicImage) -> u32;

/// Relies on image::imageops::resize: the returned buffer has exactly the
/// requested dimensions; Gaussian is the smoothing filter used for every
/// icon.
#[verifier::external_body]
fn resize_gaussian(img: &image::DynamicImage, size: u32) -> (r: image::DynamicImage)
    ensures
        image_width(r) == size,
        image_height(r) == size,
{
    image::DynamicImage::ImageRgba8(
        image::imageops::resize(img, size, size, image::imageops::FilterType::Gaussian),
    )
}

/// Density tag of bucket `k` of the fixed five-bucket table.
pub open spec fn spec_bucket_tag(k: int) -> Seq<char> {
    if k == 0 {
        "mdpi"@
    } else if k == 1 {
        "hdpi"@
    } else if k == 2 {
        "xhdpi"@
    } else if k == 3 {
        "xxhdpi"@
    } else {
        "xxxhdpi"@
    }
}

/// Square pixel dimension of bucket `k` of the fixed five-bucket table.
pub open spec fn spec_bucket_size(k: int) -> u32 {
    if k == 0 {
        48
    } else if k == 1 {
        72
    } else if k == 2 {
        96
    } else if k == 3 {
        144
    } else {
        192
    }
}

/// The fixed density-bucket table: five (tag, square pixel dimension) pairs.
pub fn density_buckets() -> (r: Vec<(&'static str, u32)>)
    ensures
        r@.len() == 5,
        forall|k: int|
            0 <= k < 5 ==> (#[trigger] r@[k]).0@ == spec_bucket_tag(k) && r@[k].1
                == spec_bucket_size(k),
{
    let mut v: Vec<(&'static str, u32)> = Vec::new();
    v.push(("mdpi", 48));
    v.push(("hdpi", 72));
    v.push(("xhdpi", 96));
    v.push(("xxhdpi", 144));
    v.push(("xxxhdpi", 192));
    v
}

/// The icon configuration: one flat icon, or up to three adaptive layers.
pub enum IconSpec {
    Flat { path: String },
    Adaptive {
        foreground: Option<String>,
        background: Option<String>,
        monochrome: Option<String>,
    },
}

/// Whether the flat icon path and the adaptive layer paths conflict: both
/// kinds configured at once.
pub open spec fn spec_icon_conflict(
    icon: Option<Seq<char>>,
    fg: Option<Seq<char>>,
    bg: Option<Seq<char>>,
    mono: Option<Seq<char>>,
) -> bool {
    icon is Some && (fg is Some || bg is Some || mono is Some)
}

/// Whether `choice` is the icon configuration that the four configured paths
/// describe: the flat icon when one is given, the adaptive layers when any
/// is given, nothing otherwise.
pub open spec fn spec_is_icon_choice(
    choice: Option<IconSpec>,
    icon: Option<Seq<char>>,
    fg: Option<Seq<char>>,
    bg: Option<Seq<char>>,
    mono: Option<Seq<char>>,
) -> bool {
    let layered = fg is Some || bg is Some || mono is Some;
    match choice {
        None => icon is None && !layered,
        Some(IconSpec::Flat { path }) => !layered && icon == Some(path@),
        Some(IconSpec::Adaptive { foreground: f, background: b, monochrome: m }) => {
            &&& icon is None
            &&& layered
            &&& f.deep_view() == fg
            &&& b.deep_view() == bg
            &&& m.deep_view() == mono
        },
    }
}

/// Validates the configured icon paths. A flat icon and any adaptive layer
/// together are a fatal configuration error, raised before any image is
/// opened or written.
pub fn icon_spec(
    icon: Option<String>,
    foreground: Option<String>,
    background: Option<String>,
    monochrome: Option<String>,
) -> (r: Result<Option<IconSpec>, Error>)
    ensures
        r is Err <==> spec_icon_conflict(
            icon.deep_view(),
            foreground.deep_view(),
            background.deep_view(),
            monochrome.deep_view(),
        ),
        r matches Err(e) ==> e is IconConflict,
        r matches Ok(choice) ==> spec_is_icon_choice(
            choice,
            icon.deep_view(),
            foreground.deep_view(),
            background.deep_view(),
            monochrome.deep_view(),
        ),
{
    let layered = foreground.is_some() || background.is_some() || monochrome.is_some();
    match icon {
        Some(path) => {
            if layered {
                Err(Error::IconConflict)
            } else {
                Ok(Some(IconSpec::Flat { path }))
            }
        },
        None => {
            if layered {
                Ok(Some(IconSpec::Adaptive { foreground, background, monochrome }))
            } else {
                Ok(None)
            }
        },
    }
}

/// One density bucket's flat icon: the bucket directory to delete and
/// recreate, and the bitmap to write there.
pub struct FlatIcon {
    pub dir: String,
    pub file_name: String,
    pub image: image::DynamicImage,
}

/// Resizes a flat source icon once per density bucket: exactly five outputs,
/// each a square of its bucket's dimension, named `ic_launcher.png` under
/// `mipmap-<tag>`.
pub fn flat_icon_files(source: &image::DynamicImage) -> (r: Vec<FlatIcon>)
    ensures
        r@.len() == 5,
        forall|k: int|
            0 <= k < 5 ==> {
                let e = #[trigger] r@[k];
                &&& e.dir@ == "mipmap-"@ + spec_bucket_tag(k)
                &&& e.file_name@ == "ic_launcher.png"@
                &&& image_width(e.image) == spec_bucket_size(k)
                &&& image_height(e.image) == spec_bucket_size(k)
            },
{
    let buckets = density_buckets();
    let mut out: Vec<FlatIcon> = Vec::new();
    let mut k: usize = 0;
    while k < 5
        invariant
            buckets@.len() == 5,
            forall|j: int|
                0 <= j < 5 ==> (#[trigger] buckets@[j]).0@ == spec_bucket_tag(j) && buckets@[j].1
                    == spec_bucket_size(j),
            k <= 5,
            out@.len() == k,
            forall|j: int|
                0 <= j < k ==> {
                    let e = #[trigger] out@[j];
                    &&& e.dir@ == "mipmap-"@ + spec_bucket_tag(j)
                    &&& e.file_name@ == "ic_launcher.png"@
                    &&& image_width(e.image) == spec_bucket_size(j)
                    &&& image_height(e.image) == spec_bucket_size(j)
                },
        decreases 5 - k,
    {
        let (tag, size) = buckets[k];
        let dir = "mipmap-".to_owned().concat(tag);
        let img = resize_gaussian(source, size);
        out.push(FlatIcon { dir, file_name: "ic_launcher.png".to_owned(), image: img });
        k += 1;
    }
    out
}

/// The XML adaptive-icon descriptor naming exactly the layers that are
/// present.
pub open spec fn spec_adaptive_xml(fg: bool, bg: bool, mono: bool) -> Seq<char> {
    "<?xml version=\"1.0\" encoding=\"utf-8\"?><adaptive-icon xmlns:android=\"http://schemas.android.com/apk/res/android\">"@
        + (if fg {
        "<foreground android:drawable=\"@mipmap/ic_launcher_foreground\" />"@
    } else {
        Seq::<char>::empty()
    }) + (if bg {
        "<background android:drawable=\"@mipmap/ic_launcher_background\" />"@
    } else {
        Seq::<char>::empty()
    }) + (if mono {
        "<monochrome android:drawable=\"@mipmap/ic_launcher_monochrome\" />"@
    } else {
        Seq::<char>::empty()
    }) + "</adaptive-icon>"@
}

/// Builds the adaptive-icon descriptor for the given layer presence flags,
/// omitting absent layer elements entirely.
pub fn adaptive_icon_xml(fg: bool, bg: bool, mono: bool) -> (r: String)
    ensures
        r@ == spec_adaptive_xml(fg, bg, mono),
{
    let mut xml =
        "<?xml version=\"1.0\" encoding=\"utf-8\"?><adaptive-icon xmlns:android=\"http://schemas.android.com/apk/res/android\">".to_owned();
    if fg {
        xml.append("<foreground android:drawable=\"@mipmap/ic_launcher_foreground\" />");
    }
    if bg {
        xml.append("<background android:drawable=\"@mipmap/ic_launcher_background\" />");
    }
    if mono {
        xml.append("<monochrome android:drawable=\"@mipmap/ic_launcher_monochrome\" />");
    }
    xml.append("</adaptive-icon>");
    proof {
        assert(xml@ =~= spec_adaptive_xml(fg, bg, mono));
    }
    xml
}

/// One density bucket's adaptive icon: the bucket directory to delete and
/// recreate, the resized layers that are present, and the XML descriptor
/// that references exactly those layers.
pub struct AdaptiveIcon {
    pub dir: String,
    pub foreground: Option<image::DynamicImage>,
    pub background: Option<image::DynamicImage>,
    pub monochrome: Option<image::DynamicImage>,
    pub descriptor_file: String,
    pub descriptor: String,
}

/// File name a present foreground layer is written under, in every bucket.
pub fn foreground_file_name() -> (r: &'static str)
    ensures
        r@ == "ic_launcher_foreground.png"@,
{
    "ic_launcher_foreground.png"
}

/// File name a present background layer is written under, in every bucket.
pub fn background_file_name() -> (r: &'static str)
    ensures
        r@ == "ic_launcher_background.png"@,
{
    "ic_launcher_background.png"
}

/// File name a present monochrome layer is written under, in every bucket.
pub fn monochrome_file_name() -> (r: &'static str)
    ensures
        r@ == "ic_launcher_monochrome.png"@,
{
    "ic_launcher_monochrome.png"
}

/// Resizes whichever adaptive layers are present once per density bucket:
/// exactly five outputs, each layer a square of its bucket's dimension, each
/// descriptor referencing exactly the present layers.
pub fn adaptive_icon_files(
    foreground: &Option<image::DynamicImage>,
    background: &Option<image::DynamicImage>,
    monochrome: &Option<image::DynamicImage>,
) -> (r: Vec<AdaptiveIcon>)
    ensures
        r@.len() == 5,
        forall|k: int|
            0 <= k < 5 ==> {
                let e = #[trigger] r@[k];
                &&& e.dir@ == "mipmap-"@ + spec_bucket_tag(k)
                &&& e.descriptor_file@ == "ic_launcher.xml"@
                &&& e.descriptor@ == spec_adaptive_xml(
                    *foreground is Some,
                    *background is Some,
                    *monochrome is Some,
                )
                &&& (e.foreground is Some <==> *foreground is Some)
                &&& (e.background is Some <==> *background is Some)
                &&& (e.monochrome is Some <==> *monochrome is Some)
                &&& (e.foreground matches Some(img) ==> image_width(img) == spec_bucket_size(k)
                    && image_height(img) == spec_bucket_size(k))
                &&& (e.background matches Some(img) ==> image_width(img) == spec_bucket_size(k)
                    && image_height(img) == spec_bucket_size(k))
                &&& (e.monochrome matches Some(img) ==> image_width(img) == spec_bucket_size(k)
                    && image_height(img) == spec_bucket_size(k))
            },
{
    let buckets = density_buckets();
    let mut out: Vec<AdaptiveIcon> = Vec::new();
    let mut k: usize = 0;
    while k < 5
        invariant
            buckets@.len() == 5,
            forall|j: int|
                0 <= j < 5 ==> (#[trigger] buckets@[j]).0@ == spec_bucket_tag(j) && buckets@[j].1
                    == spec_bucket_size(j),
            k <= 5,
            out@.len() == k,
            forall|j: int|
                0 <= j < k ==> {
                    let e = #[trigger] out@[j];
                    &&& e.dir@ == "mipmap-"@ + spec_bucket_tag(j)
                    &&& e.descriptor_file@ == "ic_launcher.xml"@
                    &&& e.descriptor@ == spec_adaptive_xml(
                        *foreground is Some,
                        *background is Some,
                        *monochrome is Some,
                    )
                    &&& (e.foreground is Some <==> *foreground is Some)
                    &&& (e.background is Some <==> *background is Some)
                    &&& (e.monochrome is Some <==> *monochrome is Some)
                    &&& (e.foreground matches Some(img) ==> image_width(img) == spec_bucket_size(j)
                        && image_height(img) == spec_bucket_size(j))
                    &&& (e.background matches Some(img) ==> image_width(img) == spec_bucket_size(j)
                        && image_height(img) == spec_bucket_size(j))
                    &&& (e.monochrome matches Some(img) ==> image_width(img) == spec_bucket_size(j)
                        && image_height(img) == spec_bucket_size(j))
                },
        decreases 5 - k,
    {
        let (tag, size) = buckets[k];
        let dir = "mipmap-".to_owned().concat(tag);
        let fg = match foreground {
            Some(img) => Some(resize_gaussian(img, size)),
            None => None,
        };
        let bg = match background {
            Some(img) => Some(resize_gaussian(img, size)),
            None => None,
        };
        let mono = match monochrome {
            Some(img) => Some(resize_gaussian(img, size)),
            None => None,
        };
        let descriptor = adaptive_icon_xml(
            foreground.is_some(),
            background.is_some(),
            monochrome.is_some(),
        );
        out.push(
            AdaptiveIcon {
                dir,
                foreground: fg,
                background: bg,
                monochrome: mono,
                descriptor_file: "ic_launcher.xml".to_owned(),
                descriptor,
            },
        );
        k += 1;
    }
    out
}

} // verus!
