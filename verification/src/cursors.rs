//! Cursor pictures: which one of a theme is used, and which frame of it is
//! shown.

use crate::shell::CursorImage;
use crate::text::read_u32;
use vstd::prelude::*;

verus! {

use crate::text::unsigned;

/// A picture of a cursor file.
#[derive(Debug)]
pub struct CursorBitmap {
    /// The size that it is meant for.
    pub size: u32,
    pub width: u32,
    pub height: u32,
    pub xhot: u32,
    pub yhot: u32,
    /// Milliseconds before the next picture.
    pub delay: u32,
    /// Four bytes for each pixel.
    pub pixels_rgba: Vec<u8>,
}

/// A picture of a cursor file, its bytes as a sequence.
#[verifier::ext_equal]
pub struct BitmapView {
    pub size: u32,
    pub width: u32,
    pub height: u32,
    pub xhot: u32,
    pub yhot: u32,
    pub delay: u32,
    pub pixels_rgba: Seq<u8>,
}

impl View for CursorBitmap {
    type V = BitmapView;

    open spec fn view(&self) -> BitmapView {
        BitmapView {
            size: self.size,
            width: self.width,
            height: self.height,
            xhot: self.xhot,
            yhot: self.yhot,
            delay: self.delay,
            pixels_rgba: self.pixels_rgba@,
        }
    }
}

impl BitmapView {
    /// A picture with a size that its pixels fill, and its hot spot on it or
    /// at its far edge.
    pub open spec fn wf(self) -> bool {
        &&& 0 < self.width <= 0x7fff
        &&& 0 < self.height <= 0x7fff
        &&& self.xhot <= self.width
        &&& self.yhot <= self.height
        &&& self.pixels_rgba.len() == 4 * self.width * self.height
    }
}

/// Pictures, their bytes as sequences.
pub open spec fn bitmaps(list: Seq<CursorBitmap>) -> Seq<BitmapView> {
    list.map_values(|b: CursorBitmap| b@)
}

/// What `xcursor::parser::parse_xcursor` reads from the bytes of a file.
pub uninterp spec fn xcursor_images(content: Seq<u8>) -> Option<Seq<BitmapView>>;

/// The number of 32 bits at a place of a file, low byte first.
pub open spec fn number_at(content: Seq<u8>, at: int) -> int {
    content[at] + 0x100 * content[at + 1] + 0x1_0000 * content[at + 2] + 0x100_0000 * content[at
        + 3]
}

/// The place of an entry in the table of contents of a cursor file.
pub open spec fn entry_at(content: Seq<u8>, k: int) -> int {
    number_at(content, 4) + 12 * k
}

/// Whether an entry in the table of contents leads to a picture that claims
/// more than `room` bytes. A picture with more than 32767 columns or rows
/// claims nothing: it is turned down unread.
pub open spec fn claims_too_much(content: Seq<u8>, k: int, room: int) -> bool {
    let entry = entry_at(content, k);
    let picture = number_at(content, entry + 8);
    let width = number_at(content, picture + 16);
    let height = number_at(content, picture + 20);
    &&& entry + 12 <= content.len()
    &&& number_at(content, entry) == 0xfffd_0002
    &&& picture + 24 <= content.len()
    &&& width <= 0x7fff
    &&& height <= 0x7fff
    &&& 4 * width * height > room
}

/// Whether a cursor file claims more than `room` bytes at once: for one of its
/// pictures, or for the list of them, with `each` bytes for each entry of the
/// table of contents. No pictures can be had from such a file where one
/// allocation cannot exceed `room`.
pub open spec fn is_oversized(content: Seq<u8>, each: int, room: int) -> bool {
    &&& content.len() >= 16
    &&& {
        ||| number_at(content, 12) * each > room
        ||| exists|k: int| #![trigger claims_too_much(content, k, room)]
            0 <= k < number_at(content, 12) && claims_too_much(content, k, room)
    }
}

/// The bytes of a picture in the list that the parser builds: six numbers of 32
/// bits, and two vectors of three words.
pub open spec fn listed_size() -> int {
    24 + 6 * (usize::BITS / 8)
}

fn read_number(content: &Vec<u8>, place: u64) -> (r: u64)
    requires
        place + 4 <= content@.len(),
    ensures
        r == number_at(content@, place as int),
        r <= u32::MAX,
{
    let len: usize = content.len();
    assert(place < len);
    let at: usize = place as usize;
    content[at] as u64 + 0x100 * content[at + 1] as u64 + 0x1_0000 * content[at + 2] as u64
        + 0x100_0000 * content[at + 3] as u64
}

fn entry_claims_too_much(content: &Vec<u8>, k: u64, room: u64) -> (r: bool)
    requires
        content@.len() >= 16,
        k <= u32::MAX,
        entry_at(content@, k as int) + 12 <= content@.len(),
    ensures
        r == claims_too_much(content@, k as int, room as int),
{
    let entry: u64 = read_number(content, 4) + 12 * k;
    if read_number(content, entry) != 0xfffd_0002 {
        return false;
    }
    let picture: u64 = read_number(content, entry + 8);
    let len: u64 = content.len() as u64;
    if picture + 24 > len {
        return false;
    }
    let width: u64 = read_number(content, picture + 16);
    let height: u64 = read_number(content, picture + 20);
    if width > 0x7fff || height > 0x7fff {
        return false;
    }
    assert(width * height <= 0x7fff * 0x7fff) by (nonlinear_arith)
        requires
            width <= 0x7fff,
            height <= 0x7fff,
    ;
    assert(4 * width * height == 4 * (width * height)) by (nonlinear_arith);
    4 * (width * height) > room
}

/// Whether a cursor file claims more than `room` bytes at once, for a picture
/// or for the list of its pictures.
pub fn oversized(content: &Vec<u8>, each: u32, room: u64) -> (r: bool)
    ensures
        r == is_oversized(content@, each as int, room as int),
{
    if content.len() < 16 {
        return false;
    }
    let len: u64 = content.len() as u64;
    let count: u64 = read_number(content, 12);
    assert(count * each <= u32::MAX * u32::MAX) by (nonlinear_arith)
        requires
            count <= u32::MAX,
            each <= u32::MAX,
    ;
    if count * each as u64 > room {
        return true;
    }
    let start: u64 = read_number(content, 4);
    let mut k: u64 = 0;
    while k < count && start + 12 * k + 12 <= len
        invariant
            k <= count <= u32::MAX,
            start <= u32::MAX,
            len == content@.len(),
            content@.len() >= 16,
            count == number_at(content@, 12),
            start == number_at(content@, 4),
            count * each <= room,
            forall|j: int| 0 <= j < k ==> !#[trigger] claims_too_much(content@, j, room as int),
        decreases count - k,
    {
        if entry_claims_too_much(content, k, room) {
            return true;
        }
        k += 1;
    }
    assert forall|j: int| 0 <= j < count implies !#[trigger] claims_too_much(
        content@,
        j,
        room as int,
    ) by {
        if j >= k {
            assert(entry_at(content@, j) >= entry_at(content@, k as int));
        }
    }
    false
}

/// Calls `xcursor::parser::parse_xcursor`, which reads the pictures of a cursor
/// file. What it reads depends on the bytes alone. Every picture it returns
/// has from 1 to 32767 columns and rows, four bytes for each pixel, and a hot
/// spot no further than its width and height. It sets memory aside for the
/// list of pictures, and for each picture before it reads it, and panics where
/// that is more than one allocation can hold. Memory that runs out is left
/// unsaid.
#[verifier::external_body]
fn parse_xcursor(content: &[u8]) -> (r: Option<Vec<CursorBitmap>>)
    requires
        !is_oversized(content@, listed_size(), isize::MAX as int),
    ensures
        match r {
            Some(images) => xcursor_images(content@) == Some(bitmaps(images@)) && forall|k: int|
                0 <= k < images@.len() ==> (#[trigger] images@[k])@.wf(),
            None => xcursor_images(content@) is None,
        },
{
    let images = xcursor::parser::parse_xcursor(content)?;
    Some(images.into_iter().map(|i| CursorBitmap {
        size: i.size,
        width: i.width,
        height: i.height,
        xhot: i.xhot,
        yhot: i.yhot,
        delay: i.delay,
        pixels_rgba: i.pixels_rgba,
    }).collect())
}

/// How far a size is from the wanted one. Sizes are taken as signed numbers of
/// 32 bits.
pub open spec fn off_by(size: u32, target: u32) -> int {
    let d = (size as i32) - (target as i32);
    if d < 0 {
        -d
    } else {
        d
    }
}

/// Whether the picture at a place is the first of those closest to a size.
pub open spec fn is_closest(images: Seq<BitmapView>, target: u32, k: int) -> bool {
    &&& 0 <= k < images.len()
    &&& forall|j: int|
        0 <= j < images.len() ==> off_by(images[k].size, target) <= off_by(
            (#[trigger] images[j]).size,
            target,
        )
    &&& forall|j: int|
        0 <= j < k ==> off_by(images[k].size, target) < off_by((#[trigger] images[j]).size, target)
}

/// There is at most one first closest picture.
pub proof fn closest_is_unique(images: Seq<BitmapView>, target: u32, a: int, b: int)
    requires
        is_closest(images, target, a),
        is_closest(images, target, b),
    ensures
        a == b,
{
    assert(off_by(images[a].size, target) <= off_by(images[b].size, target));
    assert(off_by(images[b].size, target) <= off_by(images[a].size, target));
}

fn distance_to(size: u32, target: u32) -> (r: i64)
    ensures
        r == off_by(size, target),
{
    let d: i64 = (#[verifier::truncate] (size as i32)) as i64 - (#[verifier::truncate] (
    target as i32)) as i64;
    if d < 0 {
        -d
    } else {
        d
    }
}

/// The picture closest to a size: the first of them. There is one unless there
/// are no pictures.
pub fn closest_image(images: &Vec<CursorBitmap>, target: u32) -> (r: Option<usize>)
    ensures
        match r {
            Some(k) => is_closest(bitmaps(images@), target, k as int),
            None => images@.len() == 0,
        },
{
    if images.len() == 0 {
        return None;
    }
    let ghost all = bitmaps(images@);
    let mut best: usize = 0;
    let mut i: usize = 1;
    while i < images.len()
        invariant
            1 <= i <= images@.len(),
            best < i,
            all == bitmaps(images@),
            forall|j: int|
                0 <= j < i ==> off_by(all[best as int].size, target) <= off_by(
                    (#[trigger] all[j]).size,
                    target,
                ),
            forall|j: int|
                0 <= j < best ==> off_by(all[best as int].size, target) < off_by(
                    (#[trigger] all[j]).size,
                    target,
                ),
        decreases images.len() - i,
    {
        assert(all[i as int].size == images@[i as int].size);
        assert(all[best as int].size == images@[best as int].size);
        if distance_to(images[i].size, target) < distance_to(images[best].size, target) {
            best = i;
        }
        i += 1;
    }
    Some(best)
}

/// Whether a picture is the first of those closest to a size.
pub open spec fn is_choice(images: Seq<BitmapView>, target: u32, image: BitmapView) -> bool {
    exists|k: int| #[trigger] is_closest(images, target, k) && images[k] == image
}

/// Takes the picture closest to a size. There is none where there are no
/// pictures.
pub fn choose_image(images: Vec<CursorBitmap>, target: u32) -> (r: Option<CursorBitmap>)
    ensures
        match r {
            Some(image) => images@.contains(image) && is_choice(bitmaps(images@), target, image@),
            None => images@.len() == 0,
        },
{
    let ghost all = images@;
    match closest_image(&images, target) {
        Some(k) => {
            let mut rest = images;
            let image = rest.swap_remove(k);
            assert(image == all[k as int]);
            assert(is_closest(bitmaps(all), target, k as int) && bitmaps(all)[k as int] == image@);
            Some(image)
        },
        None => None,
    }
}

/// Reads a cursor file and takes the picture closest to a size. There is none
/// in a file that cannot be read or has no pictures. A file is not read if one
/// of its pictures, or the list of them, claims more bytes than an allocation
/// can hold.
pub fn load_xcursor(content: &Vec<u8>, target: u32) -> (r: Option<CursorBitmap>)
    ensures
        match r {
            Some(image) => {
                &&& image@.wf()
                &&& xcursor_images(content@) is Some
                &&& is_choice(xcursor_images(content@)->0, target, image@)
            },
            None => {
                ||| is_oversized(content@, listed_size(), isize::MAX as int)
                ||| xcursor_images(content@) is None
                ||| xcursor_images(content@)->0.len() == 0
            },
        },
{
    let each: u32 = 24 + 6 * (usize::BITS / 8);
    if oversized(content, each, isize::MAX as u64) {
        return None;
    }
    match parse_xcursor(content.as_slice()) {
        Some(images) => choose_image(images, target),
        None => None,
    }
}

/// Where addresses have 64 bits every cursor file is read.
pub proof fn wide_addresses_hold_every_file(content: Seq<u8>)
    requires
        usize::BITS == 64,
    ensures
        !is_oversized(content, listed_size(), isize::MAX as int),
{
    assert(isize::MAX == 0x7fff_ffff_ffff_ffff);
    assert(listed_size() == 72);
    assert(number_at(content, 12) * listed_size() == 72 * number_at(content, 12));
    assert forall|k: int| !#[trigger] claims_too_much(content, k, isize::MAX as int) by {
        let picture = number_at(content, entry_at(content, k) + 8);
        let width = number_at(content, picture + 16);
        let height = number_at(content, picture + 20);
        if 0 <= width <= 0x7fff && 0 <= height <= 0x7fff {
            assert(4 * width * height <= 4 * 0x7fff * 0x7fff) by (nonlinear_arith)
                requires
                    0 <= width <= 0x7fff,
                    0 <= height <= 0x7fff,
            ;
        }
    }
}

/// The size of cursors where none is set.
pub const DEFAULT_CURSOR_SIZE: u32 = 24;

/// The size of cursors: the number that is set, if it is one.
pub fn cursor_size(setting: Option<&str>) -> (r: u32)
    ensures
        r == match setting {
            Some(s) => match unsigned(s@) {
                Some(n) if n <= u32::MAX => n as u32,
                _ => DEFAULT_CURSOR_SIZE,
            },
            None => DEFAULT_CURSOR_SIZE,
        },
{
    match setting {
        Some(s) => match read_u32(s) {
            Some(n) => n,
            None => DEFAULT_CURSOR_SIZE,
        },
        None => DEFAULT_CURSOR_SIZE,
    }
}

/// The time that the first `n` frames take.
pub open spec fn time_of(delays: Seq<u32>, n: nat) -> int
    decreases n,
{
    if n == 0 {
        0
    } else {
        time_of(delays, (n - 1) as nat) + delays[n - 1]
    }
}

/// Whether the frame at a place is shown some time after the first one began,
/// within one round.
pub open spec fn shown_at(delays: Seq<u32>, elapsed: int, k: int) -> bool {
    &&& 0 <= k < delays.len()
    &&& time_of(delays, k as nat) <= elapsed < time_of(delays, (k + 1) as nat)
}

/// The time of all frames together fits.
pub open spec fn has_total(delays: Seq<u32>, total: u32) -> bool {
    time_of(delays, delays.len()) == total
}

proof fn time_grows(delays: Seq<u32>, n: nat, m: nat)
    requires
        n <= m,
    ensures
        time_of(delays, n) <= time_of(delays, m),
    decreases m,
{
    if n < m {
        time_grows(delays, n, (m - 1) as nat);
    }
}

/// The frame of an animated cursor that is shown some milliseconds after the
/// start. A cursor whose frames take no time stays at the first.
pub fn active_frame(delays: &Vec<u32>, total_duration_ms: u32, elapsed_ms: u32) -> (r: usize)
    requires
        delays@.len() > 0,
        has_total(delays@, total_duration_ms),
    ensures
        if total_duration_ms == 0 {
            r == 0
        } else {
            shown_at(delays@, elapsed_ms as int % total_duration_ms as int, r as int)
        },
{
    if total_duration_ms == 0 {
        return 0;
    }
    let elapsed: u32 = elapsed_ms % total_duration_ms;
    let mut acc: u32 = 0;
    let mut i: usize = 0;
    while i < delays.len()
        invariant
            i <= delays@.len(),
            acc == time_of(delays@, i as nat),
            acc <= elapsed,
            has_total(delays@, total_duration_ms),
            elapsed == elapsed_ms as int % total_duration_ms as int,
            total_duration_ms > 0,
        decreases delays.len() - i,
    {
        proof {
            time_grows(delays@, (i + 1) as nat, delays@.len());
        }
        acc = acc + delays[i];
        if elapsed < acc {
            return i;
        }
        i += 1;
    }
    assert(false);
    0
}

/// At any time at most one frame is shown.
pub proof fn one_frame_is_shown(delays: Seq<u32>, elapsed: int, a: int, b: int)
    requires
        shown_at(delays, elapsed, a),
        shown_at(delays, elapsed, b),
    ensures
        a == b,
{
    if a < b {
        time_grows(delays, (a + 1) as nat, b as nat);
    } else if b < a {
        time_grows(delays, (b + 1) as nat, a as nat);
    }
}

/// What is drawn of the cursor.
#[derive(Clone, Copy, Debug, PartialEq, Eq, Structural)]
pub enum CursorDraw {
    Nothing,
    /// The surface of the client.
    Surface(u64),
    /// The picture of the icon.
    Icon,
    /// The default picture, because the client's surface is gone.
    FallBack,
}

/// Decides what is drawn of the cursor. `alive` says whether a client's surface
/// is still there.
pub fn cursor_draw(visible: bool, image: CursorImage, alive: bool) -> (r: CursorDraw)
    ensures
        r == if !visible {
            CursorDraw::Nothing
        } else {
            match image {
                CursorImage::Hidden => CursorDraw::Nothing,
                CursorImage::Surface(s) => if alive {
                    CursorDraw::Surface(s)
                } else {
                    CursorDraw::FallBack
                },
                CursorImage::Named(_) => CursorDraw::Icon,
            }
        },
{
    if !visible {
        return CursorDraw::Nothing;
    }
    match image {
        CursorImage::Hidden => CursorDraw::Nothing,
        CursorImage::Surface(s) => if alive {
            CursorDraw::Surface(s)
        } else {
            CursorDraw::FallBack
        },
        CursorImage::Named(_) => CursorDraw::Icon,
    }
}

} // verus!
