use raytracer::texture::ImageTexture;

fn two_by_two() -> ImageTexture {
    // Four pixels, three bytes each, rows of two pixels:
    // (0,0)=red, (1,0)=green, (0,1)=blue, (1,1)=white.
    let data = vec![
        255, 0, 0, // column 0, row 0
        0, 255, 0, // column 1, row 0
        0, 0, 255, // column 0, row 1
        255, 255, 255, // column 1, row 1
    ];
    ImageTexture::new(data, 2, 2)
}

#[test]
fn new_stores_fields() {
    let t = ImageTexture::new(vec![1, 2, 3], 1, 1);
    assert_eq!(t.data, vec![1, 2, 3]);
    assert_eq!(t.width, 1);
    assert_eq!(t.height, 1);
}

#[test]
fn texel_reads_each_pixel() {
    let t = two_by_two();
    assert_eq!(t.texel(0, 0), (255, 0, 0));
    assert_eq!(t.texel(1, 0), (0, 255, 0));
    assert_eq!(t.texel(0, 1), (0, 0, 255));
    assert_eq!(t.texel(1, 1), (255, 255, 255));
}

#[test]
fn texel_clamps_past_the_edge() {
    let t = two_by_two();
    // Both coordinates past the edge read the last column and row.
    assert_eq!(t.texel(2, 0), (0, 255, 0));
    assert_eq!(t.texel(9, 7), (255, 255, 255));
    assert_eq!(t.texel(0, 100), (0, 0, 255));
}

#[test]
fn texel_single_pixel_image() {
    let t = ImageTexture::new(vec![7, 8, 9], 1, 1);
    assert_eq!(t.texel(0, 0), (7, 8, 9));
    assert_eq!(t.texel(5, 5), (7, 8, 9));
}
