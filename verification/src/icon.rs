//! The tray icon's pixels, taken from an ICO file: the largest image in the
//! file, decoded to RGBA.

use vstd::prelude::*;
use ico::IconDir;

verus! {

#[verifier::external_type_specification]
#[verifier::external_body]
pub struct ExIconDir(ico::IconDir);

#[verifier::external_type_specification]
#[verifier::external_body]
pub struct ExIoError(std::io::Error);

/// What an ICO file holds, image by image: the width and height (from the
/// image data where it could be read, else from the directory), whether the
/// image is stored as PNG (else BMP), the image's encoded bytes, and the
/// RGBA pixels it decodes to (absent when decoding fails).
pub uninterp spec fn icon_dir_entries(dir: IconDir) -> Seq<(u32, u32, bool, Seq<u8>, Option<Seq<u8>>)>;

/// The images of the ICO file `data`, as `icon_dir_entries` describes them,
/// or nothing when `data` is not a readable ICO file.
pub uninterp spec fn ico_read(data: Seq<u8>) -> Option<Seq<(u32, u32, bool, Seq<u8>, Option<Seq<u8>>)>>;

/// Reads an ICO file held in memory with `ico::IconDir::read`. Claims that
/// the outcome depends on the bytes alone and that a directory read holds
/// the images `ico_read` names. The reader allocates as much as each
/// directory entry announces before reading it; an allocation the machine
/// cannot satisfy aborts the process, which is not stated.
#[verifier::external_body]
fn read_icon_dir(data: &[u8]) -> (r: Result<IconDir, std::io::Error>)
    ensures
        r is Ok <==> ico_read(data@) is Some,
        r matches Ok(dir) ==> ico_read(data@) == Some(icon_dir_entries(dir)),
{
    IconDir::read(std::io::Cursor::new(data))
}

/// Lists the images of a directory through `ico::IconDir::entries` and
/// `ico::IconDirEntry::{width, height, is_png, data}`: claims one entry per
/// image, in order, as `icon_dir_entries` describes it.
#[verifier::external_body]
fn icon_dir_entry_info(dir: &IconDir) -> (r: Vec<(u32, u32, bool, Vec<u8>)>)
    ensures
        r@.len() == icon_dir_entries(*dir).len(),
        forall|i: int| #![trigger r@[i]] 0 <= i < r@.len() ==> {
            &&& r@[i].0 == icon_dir_entries(*dir)[i].0
            &&& r@[i].1 == icon_dir_entries(*dir)[i].1
            &&& r@[i].2 == icon_dir_entries(*dir)[i].2
            &&& r@[i].3@ == icon_dir_entries(*dir)[i].3
        },
{
    dir.entries().iter().map(|e| (e.width(), e.height(), e.is_png(), e.data().to_vec())).collect()
}

/// The bits per pixel a BMP image's header announces (the little-endian
/// field at byte 14), when the data is long enough to hold it.
pub open spec fn bmp_bits_per_pixel(data: Seq<u8>) -> Option<int> {
    if data.len() >= 16 {
        Some(data[14] + data[15] * 256)
    } else {
        None
    }
}

/// The bit depths the BMP decoder accepts.
pub open spec fn valid_bmp_depth(bpp: int) -> bool {
    bpp == 1 || bpp == 4 || bpp == 8 || bpp == 16 || bpp == 24 || bpp == 32
}

/// A BMP image of these dimensions and depth decodes without the decoder's
/// size arithmetic overflowing: the pixel count, the bits of a row, and the
/// byte offset of the last row fit in 32 bits, and the RGBA buffer's length
/// fits in `usize`.
pub open spec fn bmp_decode_fits(width: u32, height: u32, bpp: int) -> bool {
    &&& width * height <= u32::MAX
    &&& width * bpp + 7 <= u32::MAX
    &&& (height == 0 || 4 * (height - 1) * width <= u32::MAX)
    &&& 4 * width * height <= usize::MAX
}

/// The decoder can be handed the image without its arithmetic overflowing:
/// a PNG image; a BMP image too short to announce a depth, or announcing
/// one the decoder rejects (both are refused before any size arithmetic);
/// or a BMP image whose size and depth fit.
pub open spec fn decode_admitted(e: (u32, u32, bool, Seq<u8>, Option<Seq<u8>>)) -> bool {
    e.2 || match bmp_bits_per_pixel(e.3) {
        Some(bpp) => !valid_bmp_depth(bpp) || bmp_decode_fits(e.0, e.1, bpp),
        None => true,
    }
}

/// Decoded RGBA pixels, row by row from the top.
pub struct RgbaIcon {
    pub rgba: Vec<u8>,
    pub width: u32,
    pub height: u32,
}

/// Decodes one image with `ico::IconDirEntry::decode`. Claims that it
/// succeeds exactly when `icon_dir_entries` gives the image pixels, that
/// the pixels are those, and (as the decoder checks) that the image has the
/// listed dimensions and four bytes per pixel. BMP images whose size would
/// overflow the decoder's arithmetic are not admitted.
#[verifier::external_body]
fn decode_icon_entry(dir: &IconDir, index: usize) -> (r: Result<RgbaIcon, std::io::Error>)
    requires
        index < icon_dir_entries(*dir).len(),
        decode_admitted(icon_dir_entries(*dir)[index as int]),
    ensures
        r is Ok <==> icon_dir_entries(*dir)[index as int].4 is Some,
        r matches Ok(img) ==> {
            &&& Some(img.rgba@) == icon_dir_entries(*dir)[index as int].4
            &&& img.width == icon_dir_entries(*dir)[index as int].0
            &&& img.height == icon_dir_entries(*dir)[index as int].1
            &&& img.rgba@.len() == 4 * img.width * img.height
        },
{
    let image = dir.entries()[index].decode()?;
    Ok(RgbaIcon { rgba: image.rgba_data().to_vec(), width: image.width(), height: image.height() })
}

/// The pixel count of an image.
pub open spec fn area(width: u32, height: u32) -> int {
    width * height
}

/// `i` is the last of the images with the largest pixel count.
pub open spec fn is_last_largest(sizes: Seq<(u32, u32, bool)>, i: int) -> bool {
    &&& 0 <= i < sizes.len()
    &&& forall|j: int| 0 <= j < sizes.len() ==> #[trigger] area(sizes[j].0, sizes[j].1) <= area(sizes[i].0, sizes[i].1)
    &&& forall|j: int| i < j < sizes.len() ==> #[trigger] area(sizes[j].0, sizes[j].1) < area(sizes[i].0, sizes[i].1)
}

/// Only one image is the last of the largest.
pub proof fn lemma_last_largest_unique(sizes: Seq<(u32, u32, bool)>, i: int, k: int)
    requires
        is_last_largest(sizes, i),
        is_last_largest(sizes, k),
    ensures
        i == k,
{
    if i < k {
        assert(area(sizes[k].0, sizes[k].1) < area(sizes[i].0, sizes[i].1));
        assert(area(sizes[k].0, sizes[k].1) >= area(sizes[i].0, sizes[i].1));
    } else if k < i {
        assert(area(sizes[i].0, sizes[i].1) < area(sizes[k].0, sizes[k].1));
        assert(area(sizes[i].0, sizes[i].1) >= area(sizes[k].0, sizes[k].1));
    }
}

fn area_u64(width: u32, height: u32) -> (a: u64)
    ensures
        a == area(width, height),
{
    assert(0 <= (width as int) * (height as int) <= u64::MAX) by (nonlinear_arith)
        requires
            width <= u32::MAX,
            height <= u32::MAX;
    (width as u64) * (height as u64)
}

/// The image to show: the last of the images with the most pixels, or none
/// when there are no images.
pub fn largest_icon_entry(sizes: &Vec<(u32, u32, bool)>) -> (r: Option<usize>)
    ensures
        r is None <==> sizes@.len() == 0,
        r matches Some(i) ==> is_last_largest(sizes@, i as int),
{
    let n = sizes.len();
    if n == 0 {
        return None;
    }
    let mut best: usize = 0;
    let mut best_area: u64 = area_u64(sizes[0].0, sizes[0].1);
    let mut i: usize = 1;
    while i < n
        invariant
            n == sizes@.len(),
            1 <= i <= n,
            best < i,
            best_area == area(sizes@[best as int].0, sizes@[best as int].1),
            forall|j: int| 0 <= j < i ==> #[trigger] area(sizes@[j].0, sizes@[j].1) <= best_area,
            forall|j: int| best < j < i ==> #[trigger] area(sizes@[j].0, sizes@[j].1) < best_area,
        decreases n - i,
    {
        let a = area_u64(sizes[i].0, sizes[i].1);
        if a >= best_area {
            best = i;
            best_area = a;
        }
        i = i + 1;
    }
    Some(best)
}

/// Why no icon could be had.
#[derive(Debug, PartialEq, Eq)]
pub enum IconError {
    /// The bytes are not a readable ICO file; the reader's message.
    Malformed(String),
    /// The file holds no image.
    NoEntries,
    /// The chosen BMP image announces a depth and a size for which the
    /// decoder's size arithmetic would overflow.
    TooLarge,
    /// The chosen image could not be decoded; the decoder's message.
    Undecodable(String),
}

fn read_bmp_depth(data: &Vec<u8>) -> (r: Option<u32>)
    ensures
        r matches Some(b) ==> bmp_bits_per_pixel(data@) == Some(b as int),
        r is None ==> bmp_bits_per_pixel(data@) is None,
{
    if data.len() >= 16 {
        Some((data[14] as u32) + (data[15] as u32) * 256)
    } else {
        None
    }
}

fn decode_admitted_exec(width: u32, height: u32, is_png: bool, data: &Vec<u8>) -> (r: bool)
    ensures
        r == decode_admitted((width, height, is_png, data@, None)),
{
    if is_png {
        return true;
    }
    let bpp = match read_bmp_depth(data) {
        Some(b) => b,
        None => {
            return true;
        },
    };
    if !(bpp == 1 || bpp == 4 || bpp == 8 || bpp == 16 || bpp == 24 || bpp == 32) {
        return true;
    }
    let w: u128 = width as u128;
    let h: u128 = height as u128;
    assert(0 <= w * h <= u64::MAX) by (nonlinear_arith)
        requires
            w <= u32::MAX,
            h <= u32::MAX;
    assert(0 <= w * (bpp as u128) <= u64::MAX) by (nonlinear_arith)
        requires
            w <= u32::MAX,
            bpp <= 32;
    let wh: u128 = w * h;
    let wb: u128 = w * (bpp as u128);
    let last_row: bool = if height == 0 {
        true
    } else {
        assert(0 <= 4 * (h - 1) * w <= 4 * wh) by (nonlinear_arith)
            requires
                1 <= h,
                wh == w * h,
                w >= 0;
        4 * (h - 1) * w <= u32::MAX as u128
    };
    assert(4 * width * height == 4 * wh) by (nonlinear_arith)
        requires
            wh == width * height;
    wh <= u32::MAX as u128 && wb + 7 <= u32::MAX as u128 && last_row && 4 * wh <= usize::MAX as u128
}

/// The width, height and format of each image.
pub open spec fn entries_sizes(entries: Seq<(u32, u32, bool, Seq<u8>, Option<Seq<u8>>)>) -> Seq<(u32, u32, bool)> {
    entries.map_values(|e: (u32, u32, bool, Seq<u8>, Option<Seq<u8>>)| (e.0, e.1, e.2))
}

/// The outcome of loading an icon from a file with images `entries`.
pub open spec fn icon_outcome_ok(
    entries: Seq<(u32, u32, bool, Seq<u8>, Option<Seq<u8>>)>,
    r: Result<RgbaIcon, IconError>,
) -> bool {
    let sizes = entries_sizes(entries);
    if entries.len() == 0 {
        r == Err::<RgbaIcon, IconError>(IconError::NoEntries)
    } else {
        exists|i: int| #![trigger is_last_largest(sizes, i)] is_last_largest(sizes, i) && {
            let e = entries[i];
            if !decode_admitted(e) {
                r == Err::<RgbaIcon, IconError>(IconError::TooLarge)
            } else {
                match e.4 {
                    None => r is Err && r->Err_0 is Undecodable,
                    Some(px) => r matches Ok(img) && img.rgba@ == px && img.width == e.0
                        && img.height == e.1,
                }
            }
        }
    }
}

/// Loads the icon from the bytes of an ICO file: reads the file, picks the
/// last of its images with the most pixels and decodes it to RGBA.
pub fn load_icon_file(data: &[u8]) -> (r: Result<RgbaIcon, IconError>)
    ensures
        ico_read(data@) is None <==> (r is Err && r->Err_0 is Malformed),
        ico_read(data@) matches Some(entries) ==> icon_outcome_ok(entries, r),
        r matches Ok(img) ==> img.rgba@.len() == 4 * img.width * img.height,
{
    let dir = match read_icon_dir(data) {
        Ok(d) => d,
        Err(e) => {
            return Err(IconError::Malformed(e.to_string()));
        },
    };
    let ghost entries = icon_dir_entries(dir);
    let ghost sizes = entries_sizes(entries);
    let infos = icon_dir_entry_info(&dir);
    let mut size_list: Vec<(u32, u32, bool)> = Vec::new();
    let n = infos.len();
    let mut k: usize = 0;
    while k < n
        invariant
            n == infos@.len(),
            n == entries.len(),
            sizes == entries_sizes(entries),
            sizes.len() == n,
            k <= n,
            size_list@ == sizes.subrange(0, k as int),
            forall|i: int| #![trigger infos@[i]] 0 <= i < infos@.len() ==> {
                &&& infos@[i].0 == entries[i].0
                &&& infos@[i].1 == entries[i].1
                &&& infos@[i].2 == entries[i].2
                &&& infos@[i].3@ == entries[i].3
            },
        decreases n - k,
    {
        let e = &infos[k];
        size_list.push((e.0, e.1, e.2));
        assert(sizes.subrange(0, k + 1) =~= sizes.subrange(0, k as int).push(sizes[k as int]));
        k = k + 1;
    }
    assert(size_list@ =~= sizes);
    let index = match largest_icon_entry(&size_list) {
        Some(i) => i,
        None => {
            return Err(IconError::NoEntries);
        },
    };
    let chosen = &infos[index];
    assert(infos@[index as int].3@ == entries[index as int].3);
    if !decode_admitted_exec(chosen.0, chosen.1, chosen.2, &chosen.3) {
        assert(is_last_largest(sizes, index as int));
        return Err(IconError::TooLarge);
    }
    match decode_icon_entry(&dir, index) {
        Ok(img) => {
            assert(is_last_largest(sizes, index as int));
            Ok(img)
        },
        Err(e) => {
            assert(is_last_largest(sizes, index as int));
            Err(IconError::Undecodable(e.to_string()))
        },
    }
}

/// An image is refused as too large only where the decoder's size
/// arithmetic would overflow: a BMP image of a depth the decoder accepts
/// whose pixel count, row bits plus 7 and last-row byte offset fit in 32
/// bits, and whose RGBA buffer fits in `usize`, is handed to the decoder.
pub proof fn lemma_fitting_bmp_is_admitted(e: (u32, u32, bool, Seq<u8>, Option<Seq<u8>>), bpp: int)
    requires
        bmp_bits_per_pixel(e.3) == Some(bpp),
        bpp == 1 || bpp == 4 || bpp == 8 || bpp == 16 || bpp == 24 || bpp == 32,
        e.0 * e.1 <= u32::MAX,
        e.0 * bpp + 7 <= u32::MAX,
        e.1 == 0 || 4 * (e.1 - 1) * e.0 <= u32::MAX,
        4 * e.0 * e.1 <= usize::MAX,
    ensures
        decode_admitted(e),
{
}

/// Every image of at most 256 by 256 pixels (the largest an ICO directory
/// can describe), in any format and at any depth, is handed to the decoder.
pub proof fn lemma_icon_sized_images_are_admitted(e: (u32, u32, bool, Seq<u8>, Option<Seq<u8>>))
    requires
        e.0 <= 256,
        e.1 <= 256,
    ensures
        decode_admitted(e),
{
    if !e.2 && bmp_bits_per_pixel(e.3) is Some {
        let bpp = bmp_bits_per_pixel(e.3)->0;
        if valid_bmp_depth(bpp) {
            assert(e.0 * e.1 <= 65536) by (nonlinear_arith)
                requires
                    e.0 <= 256,
                    e.1 <= 256;
            assert(e.0 * bpp <= 256 * 32) by (nonlinear_arith)
                requires
                    e.0 <= 256,
                    bpp <= 32,
                    0 <= bpp;
            assert(e.1 == 0 || 4 * (e.1 - 1) * e.0 <= 4 * 65536) by (nonlinear_arith)
                requires
                    e.0 <= 256,
                    e.1 <= 256;
            assert(4 * e.0 * e.1 <= 4 * 65536) by (nonlinear_arith)
                requires
                    e.0 <= 256,
                    e.1 <= 256;
        }
    }
}

/// PNG images are always handed to the decoder.
pub proof fn lemma_png_is_admitted(e: (u32, u32, bool, Seq<u8>, Option<Seq<u8>>))
    requires
        e.2,
    ensures
        decode_admitted(e),
{
}

} // verus!
