//! Row repacking of a decoded RGBA plane into the bytes that go to the GPU.
//!
//! FFmpeg pads each row of a frame to an alignment of its own choosing, so a
//! plane's stride is usually larger than `width * 4`. A texture write takes
//! tightly packed rows.

use vstd::prelude::*;

verus! {

/// Bytes of one RGBA pixel.
pub const BYTES_PER_PIXEL: u32 = 4;

/// Number of bytes in one tightly packed row of `width` RGBA pixels.
pub open spec fn packed_row(width: int) -> int {
    width * 4
}

/// The first `packed_row(width)` bytes of row `row` of a plane of rows that
/// start `stride` bytes apart.
pub open spec fn plane_row(plane: Seq<u8>, stride: int, width: int, row: int) -> Seq<u8> {
    plane.subrange(row * stride, row * stride + packed_row(width))
}

/// The first `height` rows of a plane, one after the other without padding.
pub open spec fn packed_rows(plane: Seq<u8>, stride: int, width: int, height: nat) -> Seq<u8>
    decreases height,
{
    if height == 0 {
        Seq::empty()
    } else {
        packed_rows(plane, stride, width, (height - 1) as nat) + plane_row(
            plane,
            stride,
            width,
            height - 1,
        )
    }
}

/// Whether `height` rows of `width` pixels, `stride` bytes apart, lie inside
/// a plane of `len` bytes.
pub open spec fn rows_fit(len: int, stride: int, width: int, height: int) -> bool {
    height > 0 ==> (height - 1) * stride + packed_row(width) <= len
}

/// How the bytes of a texture write are laid out, and the size of the region
/// that they fill.
#[derive(Debug, Clone, Copy, PartialEq, Eq, Structural)]
pub struct UploadLayout {
    pub offset: u64,
    pub bytes_per_row: u32,
    pub rows_per_image: u32,
    pub width: u32,
    pub height: u32,
    pub depth_or_array_layers: u32,
}

/// Where the bytes of a texture write are taken from.
#[derive(Debug, Clone, Copy, PartialEq, Eq, Structural)]
pub enum UploadSource {
    /// The frame's plane itself: its rows are packed already.
    Plane,
    /// The scratch buffer, which holds the rows of the plane without padding.
    Scratch,
}

/// Which part of a texture's pixels is written.
#[derive(Debug, Clone, Copy, PartialEq, Eq, Structural)]
pub enum TextureAspect {
    All,
}

/// A position in a texture.
#[derive(Debug, Clone, Copy, PartialEq, Eq, Structural)]
pub struct Origin3d {
    pub x: u32,
    pub y: u32,
    pub z: u32,
}

/// A texture write that is ready to be handed to the GPU queue.
#[derive(Debug, Clone, Copy, PartialEq, Eq, Structural)]
pub struct TextureUpload {
    pub mip_level: u32,
    /// Where in the texture the written region starts.
    pub origin: Origin3d,
    pub aspect: TextureAspect,
    pub source: UploadSource,
    pub layout: UploadLayout,
}

/// The layout of a packed RGBA image of `width` x `height` pixels.
pub open spec fn packed_layout(width: u32, height: u32) -> UploadLayout {
    UploadLayout {
        offset: 0,
        bytes_per_row: packed_row(width as int) as u32,
        rows_per_image: height,
        width,
        height,
        depth_or_array_layers: 1,
    }
}

/// The upload of a frame whose rows are `stride` bytes apart, to the start of
/// the texture: straight from the plane where the rows are packed, from the
/// scratch buffer otherwise.
pub open spec fn rgba_upload(stride: int, width: u32, height: u32) -> TextureUpload {
    TextureUpload {
        mip_level: 0,
        origin: Origin3d { x: 0, y: 0, z: 0 },
        aspect: TextureAspect::All,
        source: if stride == packed_row(width as int) {
            UploadSource::Plane
        } else {
            UploadSource::Scratch
        },
        layout: packed_layout(width, height),
    }
}

/// What the scratch buffer holds once such an upload is prepared, where it
/// held `before`.
pub open spec fn scratch_after(
    plane: Seq<u8>,
    stride: int,
    width: u32,
    height: u32,
    before: Seq<u8>,
) -> Seq<u8> {
    if stride == packed_row(width as int) {
        before
    } else {
        packed_rows(plane, stride, width as int, height as nat)
    }
}

/// The bytes that an upload hands to the queue.
pub open spec fn upload_bytes(upload: TextureUpload, plane: Seq<u8>, scratch: Seq<u8>) -> Seq<u8> {
    match upload.source {
        UploadSource::Plane => plane,
        UploadSource::Scratch => scratch,
    }
}

/// `packed_rows` holds `packed_row(width)` bytes for each row.
proof fn lemma_packed_len(plane: Seq<u8>, stride: int, width: int, height: nat)
    requires
        stride >= 0,
        width >= 0,
        rows_fit(plane.len() as int, stride, width, height as int),
    ensures
        packed_rows(plane, stride, width, height).len() == height * packed_row(width),
    decreases height,
{
    let p = packed_row(width);
    if height > 0 {
        let h = height as int;
        assert((h - 1) * stride >= 0) by (nonlinear_arith)
            requires
                h >= 1,
                stride >= 0,
        ;
        if height > 1 {
            assert((h - 2) * stride <= (h - 1) * stride) by (nonlinear_arith)
                requires
                    stride >= 0,
            ;
        }
        lemma_packed_len(plane, stride, width, (height - 1) as nat);
        assert(h * p == (h - 1) * p + p) by (nonlinear_arith);
    } else {
        assert(0 * p == 0);
    }
}

/// Prepare the upload of the first `height` rows of `plane` into a texture of
/// `width` x `height` RGBA pixels.
///
/// Where the rows of the plane are packed already the plane is used as it is
/// and `scratch` is left alone. Otherwise the rows are copied to `scratch`,
/// which then holds exactly the packed image.
pub fn upload_rgba(
    plane: &[u8],
    frame_stride: usize,
    width: u32,
    height: u32,
    scratch: &mut Vec<u8>,
) -> (upload: TextureUpload)
    requires
        packed_row(width as int) <= u32::MAX,
        frame_stride != packed_row(width as int) ==> {
            &&& rows_fit(plane@.len() as int, frame_stride as int, width as int, height as int)
            &&& packed_row(width as int) * height <= usize::MAX
        },
    ensures
        upload == rgba_upload(frame_stride as int, width, height),
        final(scratch)@ == scratch_after(
            plane@,
            frame_stride as int,
            width,
            height,
            old(scratch)@,
        ),
{
    let packed_bytes_per_row: u32 = width * BYTES_PER_PIXEL;
    let layout = UploadLayout {
        offset: 0,
        bytes_per_row: packed_bytes_per_row,
        rows_per_image: height,
        width,
        height,
        depth_or_array_layers: 1,
    };
    let source = if frame_stride == packed_bytes_per_row as usize {
        UploadSource::Plane
    } else {
        pack_rows(plane, frame_stride, width, height, scratch);
        UploadSource::Scratch
    };
    TextureUpload {
        mip_level: 0,
        origin: Origin3d { x: 0, y: 0, z: 0 },
        aspect: TextureAspect::All,
        source,
        layout,
    }
}

/// Copy the rows of `plane` into `scratch`, one after the other.
fn pack_rows(plane: &[u8], stride: usize, width: u32, height: u32, scratch: &mut Vec<u8>)
    requires
        packed_row(width as int) <= u32::MAX,
        rows_fit(plane@.len() as int, stride as int, width as int, height as int),
        packed_row(width as int) * height <= usize::MAX,
    ensures
        final(scratch)@ == packed_rows(plane@, stride as int, width as int, height as nat),
{
    let packed: usize = (width * BYTES_PER_PIXEL) as usize;
    let rows: usize = height as usize;
    let needed: usize = packed * rows;
    let plane_len: usize = plane.len();
    if scratch.len() != needed {
        scratch.resize(needed, 0);
    }
    let mut row: usize = 0;
    while row < rows
        invariant
            row <= rows,
            rows == height,
            plane_len == plane@.len(),
            packed == packed_row(width as int),
            scratch@.len() == packed * rows,
            packed * rows <= usize::MAX,
            rows_fit(plane@.len() as int, stride as int, width as int, rows as int),
            row * packed <= scratch@.len(),
            scratch@.take(row * packed) == packed_rows(
                plane@,
                stride as int,
                width as int,
                row as nat,
            ),
        decreases rows - row,
    {
        proof {
            let (r, n, s, p) = (row as int, rows as int, stride as int, packed as int);
            assert(0 <= r * s <= (n - 1) * s) by (nonlinear_arith)
                requires
                    0 <= r <= n - 1,
                    s >= 0,
            ;
            assert(r * p + p == (r + 1) * p && (r + 1) * p <= p * n && r * p >= 0)
                by (nonlinear_arith)
                requires
                    0 <= r <= n - 1,
                    p >= 0,
            ;
        }
        let src_start: usize = row * stride;
        let dst_start: usize = row * packed;
        let ghost before = scratch@.take(row * packed);
        let mut i: usize = 0;
        while i < packed
            invariant
                i <= packed,
                packed == packed_row(width as int),
                dst_start == row * packed,
                src_start == row * stride,
                dst_start + packed <= scratch@.len(),
                plane_len == plane@.len(),
                src_start + packed <= plane_len,
                packed * rows <= usize::MAX,
                scratch@.len() == packed * rows,
                before.len() == dst_start,
                scratch@.take(dst_start as int) == before,
                scratch@.subrange(dst_start as int, dst_start + i) == plane@.subrange(
                    src_start as int,
                    src_start + i,
                ),
            decreases packed - i,
        {
            let ghost prior = scratch@;
            scratch.set(dst_start + i, plane[src_start + i]);
            assert(scratch@.take(dst_start as int) =~= prior.take(dst_start as int));
            assert(scratch@.subrange(dst_start as int, dst_start + i + 1) =~= prior.subrange(
                dst_start as int,
                dst_start + i,
            ).push(plane@[src_start + i]));
            assert(plane@.subrange(src_start as int, src_start + i + 1) =~= plane@.subrange(
                src_start as int,
                src_start + i,
            ).push(plane@[src_start + i]));
            i += 1;
        }
        assert(scratch@.take((row + 1) * packed) =~= before + plane_row(
            plane@,
            stride as int,
            width as int,
            row as int,
        ));
        row += 1;
    }
    assert(row * packed == packed * rows) by (nonlinear_arith)
        requires
            row == rows,
    ;
    assert(scratch@.take(row * packed) =~= scratch@);
}

/// The bytes of row `row` of `packed_rows` are those of row `row` of the plane.
proof fn lemma_packed_row(
    plane: Seq<u8>,
    stride: int,
    width: int,
    height: nat,
    row: int,
    i: int,
)
    requires
        stride >= 0,
        width >= 0,
        rows_fit(plane.len() as int, stride, width, height as int),
        0 <= row < height,
        0 <= i < packed_row(width),
    ensures
        0 <= row * packed_row(width) + i < packed_rows(plane, stride, width, height).len(),
        packed_rows(plane, stride, width, height)[row * packed_row(width) + i] == plane[row * stride
            + i],
    decreases height,
{
    let (h, p) = (height as int, packed_row(width));
    lemma_packed_len(plane, stride, width, height);
    assert(0 <= row * p && row * p + i < h * p) by (nonlinear_arith)
        requires
            0 <= row < h,
            0 <= i < p,
    ;
    assert((h - 1) * stride >= 0) by (nonlinear_arith)
        requires
            h >= 1,
            stride >= 0,
    ;
    if height > 1 {
        assert((h - 2) * stride <= (h - 1) * stride) by (nonlinear_arith)
            requires
                stride >= 0,
        ;
    }
    lemma_packed_len(plane, stride, width, (height - 1) as nat);
    if row < height - 1 {
        lemma_packed_row(plane, stride, width, (height - 1) as nat, row, i);
    }
}

/// Whatever the stride of a frame, each byte of each row of pixels that goes to
/// the texture is the byte at the same place in the same row of the frame.
pub proof fn law_upload_keeps_pixels(
    plane: Seq<u8>,
    stride: int,
    width: u32,
    height: u32,
    scratch: Seq<u8>,
    row: int,
    i: int,
)
    requires
        packed_row(width as int) <= u32::MAX,
        stride >= 0,
        rows_fit(plane.len() as int, stride, width as int, height as int),
        0 <= row < height,
        0 <= i < packed_row(width as int),
    ensures
        ({
            let upload = rgba_upload(stride, width, height);
            let bytes = upload_bytes(
                upload,
                plane,
                scratch_after(plane, stride, width, height, scratch),
            );
            let at = upload.layout.offset + row * upload.layout.bytes_per_row + i;
            &&& 0 <= at < bytes.len()
            &&& bytes[at] == plane[row * stride + i]
        }),
{
    let (h, p) = (height as int, packed_row(width as int));
    if stride == p {
        assert(0 <= row * stride <= (h - 1) * stride) by (nonlinear_arith)
            requires
                0 <= row <= h - 1,
                stride >= 0,
        ;
    } else {
        lemma_packed_row(plane, stride, width as int, height as nat, row, i);
    }
}

/// A repacked image holds exactly `height` rows of `width * 4` bytes.
pub proof fn law_packed_size(plane: Seq<u8>, stride: int, width: u32, height: u32)
    requires
        stride >= 0,
        rows_fit(plane.len() as int, stride, width as int, height as int),
    ensures
        packed_rows(plane, stride, width as int, height as nat).len() == height * packed_row(
            width as int,
        ),
{
    lemma_packed_len(plane, stride, width as int, height as nat);
}

/// Every upload fills the whole texture from its first texel: `height` rows of
/// `width` pixels, each of four bytes, one row after the other with nothing in
/// between, whatever the stride of the frame.
pub proof fn law_upload_fills_the_texture(stride: int, width: u32, height: u32)
    requires
        width * 4 <= u32::MAX,
    ensures
        ({
            let upload = rgba_upload(stride, width, height);
            &&& upload.layout.offset == 0
            &&& upload.layout.bytes_per_row == width * 4
            &&& upload.layout.rows_per_image == height
            &&& upload.layout.width == width
            &&& upload.layout.height == height
            &&& upload.layout.depth_or_array_layers == 1
            &&& upload.mip_level == 0
            &&& upload.origin.x == 0 && upload.origin.y == 0 && upload.origin.z == 0
            &&& upload.aspect is All
        }),
{
}

/// The frame's own bytes are uploaded, and the scratch buffer is left alone, if
/// and only if the rows of the frame are packed.
pub proof fn law_packed_frames_are_not_copied(
    plane: Seq<u8>,
    stride: int,
    width: u32,
    height: u32,
    scratch: Seq<u8>,
)
    ensures
        rgba_upload(stride, width, height).source is Plane <==> stride == width * 4,
        stride == width * 4 ==> scratch_after(plane, stride, width, height, scratch) == scratch,
{
}

/// Each channel of each pixel goes where it belongs: the byte for channel `c`
/// of the pixel at column `x` of row `y` is that of the frame, whatever the
/// size and the stride, and whatever the scratch buffer held before.
pub proof fn law_each_channel_keeps_its_place(
    plane: Seq<u8>,
    stride: int,
    width: u32,
    height: u32,
    scratch: Seq<u8>,
    x: int,
    y: int,
    c: int,
)
    requires
        width * 4 <= u32::MAX,
        stride >= 0,
        (height - 1) * stride + width * 4 <= plane.len(),
        0 <= x < width,
        0 <= y < height,
        0 <= c < 4,
    ensures
        ({
            let bytes = upload_bytes(
                rgba_upload(stride, width, height),
                plane,
                scratch_after(plane, stride, width, height, scratch),
            );
            &&& 0 <= y * (width * 4) + x * 4 + c < bytes.len()
            &&& bytes[y * (width * 4) + x * 4 + c] == plane[y * stride + x * 4 + c]
        }),
{
    law_upload_keeps_pixels(plane, stride, width, height, scratch, y, x * 4 + c);
    law_upload_fills_the_texture(stride, width, height);
    let row = rgba_upload(stride, width, height).layout.bytes_per_row as int;
    assert(row == width * 4);
    assert(y * row + (x * 4 + c) == y * (width * 4) + x * 4 + c);
    assert(y * stride + (x * 4 + c) == y * stride + x * 4 + c);
}

/// A frame that is repacked leaves exactly its pixels in the scratch buffer,
/// four bytes for each, however long the buffer was before; and two frames that
/// agree in the bytes of their pixels leave the same.
pub proof fn law_scratch_holds_just_the_pixels(
    plane: Seq<u8>,
    stride: int,
    width: u32,
    height: u32,
    scratch: Seq<u8>,
    other: Seq<u8>,
)
    requires
        stride >= 0,
        height == 0 || (height - 1) * stride + width * 4 <= plane.len(),
        stride != width * 4,
    ensures
        scratch_after(plane, stride, width, height, scratch).len() == height * (width * 4),
        scratch_after(plane, stride, width, height, scratch) == scratch_after(
            plane,
            stride,
            width,
            height,
            other,
        ),
{
    law_packed_size(plane, stride, width, height);
}

/// Rows fit into a plane exactly where the last of them does, without padding
/// behind it.
pub proof fn law_rows_that_fit(len: int, stride: int, width: int, height: int)
    ensures
        packed_row(width) == 4 * width,
        rows_fit(len, stride, width, height) <==> (height <= 0 || (height - 1) * stride + 4 * width
            <= len),
{
}

} // verus!
