use cutlass::upload::{upload_rgba, Origin3d, TextureAspect, UploadLayout, UploadSource};

fn numbered(len: usize) -> Vec<u8> {
    (0..len).map(|i| (i % 251) as u8).collect()
}

#[test]
fn packed_plane_is_used_as_it_is() {
    let plane = numbered(4 * 3 * 2);
    let mut scratch = vec![9, 9];
    let upload = upload_rgba(&plane, 12, 3, 2, &mut scratch);
    assert_eq!(upload.source, UploadSource::Plane);
    assert_eq!(
        upload.layout,
        UploadLayout {
            offset: 0,
            bytes_per_row: 12,
            rows_per_image: 2,
            width: 3,
            height: 2,
            depth_or_array_layers: 1,
        }
    );
    assert_eq!(scratch, vec![9, 9]);
}

#[test]
fn padded_rows_are_packed() {
    let plane = numbered(16 * 3);
    let mut scratch = Vec::new();
    let upload = upload_rgba(&plane, 16, 2, 3, &mut scratch);
    assert_eq!(upload.source, UploadSource::Scratch);
    assert_eq!(upload.layout.bytes_per_row, 8);
    assert_eq!(
        scratch,
        vec![
            0, 1, 2, 3, 4, 5, 6, 7, 16, 17, 18, 19, 20, 21, 22, 23, 32, 33, 34, 35, 36, 37, 38, 39
        ]
    );
}

#[test]
fn uploads_start_at_the_first_texel() {
    let plane = numbered(16 * 3);
    let mut scratch = Vec::new();
    for stride in [8, 16] {
        let upload = upload_rgba(&plane, stride, 2, 3, &mut scratch);
        assert_eq!(upload.mip_level, 0);
        assert_eq!(upload.origin, Origin3d { x: 0, y: 0, z: 0 });
        assert_eq!(upload.aspect, TextureAspect::All);
    }
}

#[test]
fn each_pixel_keeps_its_place() {
    let (width, height, stride) = (5u32, 4u32, 32usize);
    let plane = numbered(stride * height as usize);
    let mut scratch = Vec::new();
    let upload = upload_rgba(&plane, stride, width, height, &mut scratch);
    let row_bytes = upload.layout.bytes_per_row as usize;
    for row in 0..height as usize {
        for i in 0..row_bytes {
            assert_eq!(scratch[row * row_bytes + i], plane[row * stride + i]);
        }
    }
    assert_eq!(scratch.len(), row_bytes * height as usize);
}

#[test]
fn scratch_is_resized_both_ways() {
    let plane = numbered(12 * 2);
    let mut scratch = vec![1; 100];
    upload_rgba(&plane, 12, 1, 2, &mut scratch);
    assert_eq!(scratch, vec![0, 1, 2, 3, 12, 13, 14, 15]);
    upload_rgba(&plane, 12, 2, 2, &mut scratch);
    assert_eq!(
        scratch,
        vec![0, 1, 2, 3, 4, 5, 6, 7, 12, 13, 14, 15, 16, 17, 18, 19]
    );
}

#[test]
fn last_row_needs_no_padding() {
    let plane = numbered(10 + 4);
    let mut scratch = Vec::new();
    upload_rgba(&plane, 10, 1, 2, &mut scratch);
    assert_eq!(scratch, vec![0, 1, 2, 3, 10, 11, 12, 13]);
}

#[test]
fn no_rows_give_an_empty_upload() {
    let mut scratch = vec![3; 8];
    let upload = upload_rgba(&[], 10, 1, 0, &mut scratch);
    assert_eq!(upload.source, UploadSource::Scratch);
    assert!(scratch.is_empty());
}
