use image::{DynamicImage, Rgb, RgbImage};
use my_detection::raster::{rgb_bytes, Rgb8Image};
use my_detection::data::{
    AnnotationIndex, BoundingBox, CocoAnnotation, CocoAnnotationItem, CocoCategory,
    CocoDetectionDataset, CocoImage,
};

fn image_record(id: u64, file_name: &str, width: u64, height: u64) -> CocoImage {
    CocoImage { id, file_name: file_name.to_string(), width, height }
}

fn annotation(id: u64, image_id: u64, category_id: u32, bbox: [f32; 4]) -> CocoAnnotationItem {
    CocoAnnotationItem {
        id,
        image_id,
        category_id,
        bbox: [bbox[0].to_bits(), bbox[1].to_bits(), bbox[2].to_bits(), bbox[3].to_bits()],
        area: (f64::from(bbox[2]) * f64::from(bbox[3])).to_bits(),
    }
}

fn document() -> CocoAnnotation {
    CocoAnnotation {
        images: vec![
            image_record(7, "a.png", 100, 80),
            image_record(3, "b.png", 640, 480),
            image_record(9, "c.png", 32, 32),
        ],
        annotations: vec![
            annotation(1, 3, 5, [64.0, 48.0, 320.0, 240.0]),
            annotation(2, 7, 1, [10.0, 20.0, 30.0, 40.0]),
            annotation(3, 3, 900, [0.5, 1.5, 2.5, 3.5]),
            annotation(4, 7, 2, [50.0, 40.0, 25.0, 20.0]),
            annotation(5, 3, 5, [600.0, 400.0, 100.0, 100.0]),
        ],
        categories: vec![CocoCategory { id: 1, name: "tooth".to_string() }],
    }
}

fn dataset(target_size: (u32, u32)) -> CocoDetectionDataset {
    CocoDetectionDataset::new("images".to_string(), document(), target_size)
}

fn solid(width: u32, height: u32, colour: [u8; 3]) -> DynamicImage {
    DynamicImage::ImageRgb8(RgbImage::from_pixel(width, height, Rgb(colour)))
}

fn fraction(numerator: u32, denominator: u64) -> f32 {
    f32::from_bits(numerator) / denominator as f32
}

fn close(a: f32, b: f32) -> bool {
    (a - b).abs() <= 1e-6 * b.abs().max(1.0)
}

#[test]
fn length_is_the_number_of_images() {
    assert_eq!(dataset((8, 8)).len(), 3);
    let no_annotations = CocoAnnotation {
        images: vec![image_record(1, "x.png", 4, 4), image_record(2, "y.png", 4, 4)],
        annotations: vec![],
        categories: vec![],
    };
    assert_eq!(CocoDetectionDataset::new(String::new(), no_annotations, (8, 8)).len(), 2);
    let no_images = CocoAnnotation {
        images: vec![],
        annotations: vec![annotation(1, 1, 1, [0.0, 0.0, 1.0, 1.0])],
        categories: vec![CocoCategory { id: 1, name: "a".to_string() }],
    };
    assert_eq!(CocoDetectionDataset::new(String::new(), no_images, (8, 8)).len(), 0);
}

#[test]
fn dataset_remembers_directory_and_target_size() {
    let ds = dataset((224, 112));
    assert_eq!(ds.image_dir(), "images");
    assert_eq!(ds.target_size(), (224, 112));
}

#[test]
fn image_info_names_the_file() {
    let ds = dataset((8, 8));
    let info = ds.image_info(1).unwrap();
    assert_eq!(info.id, 3);
    assert_eq!(info.file_name, "b.png");
    assert_eq!((info.width, info.height), (640, 480));
    assert!(ds.image_info(3).is_none());
}

#[test]
fn index_groups_in_document_order() {
    let index = AnnotationIndex::build(document().annotations);
    let of_three: Vec<u64> = index.annotations(3).unwrap().iter().map(|a| a.id).collect();
    assert_eq!(of_three, vec![1, 3, 5]);
    let of_seven: Vec<u64> = index.annotations(7).unwrap().iter().map(|a| a.id).collect();
    assert_eq!(of_seven, vec![2, 4]);
    assert!(index.annotations(9).is_none());
    assert!(index.annotations(0).is_none());
}

#[test]
fn index_of_nothing_is_empty() {
    let index = AnnotationIndex::build(Vec::new());
    assert!(index.annotations(1).is_none());
}

#[test]
fn get_out_of_range_is_absent() {
    let ds = dataset((8, 8));
    let picture = solid(4, 4, [1, 2, 3]);
    assert!(ds.get(3, Some(&picture)).is_none());
    assert!(ds.get(usize::MAX, Some(&picture)).is_none());
    assert!(ds.item(3, vec![0; 8 * 8 * 3]).is_none());
}

#[test]
fn get_without_a_decoded_image_is_absent() {
    let ds = dataset((8, 8));
    assert!(ds.get(0, None).is_none());
    let picture = solid(4, 4, [1, 2, 3]);
    assert!(ds.get(1, Some(&picture)).is_some());
}

#[test]
fn get_twice_gives_the_same_item() {
    let ds = dataset((6, 5));
    let picture = DynamicImage::ImageRgb8(RgbImage::from_fn(9, 7, |x, y| {
        Rgb([(x * 20) as u8, (y * 30) as u8, ((x + y) * 10) as u8])
    }));
    let first = ds.get(1, Some(&picture)).unwrap();
    let second = ds.get(1, Some(&picture)).unwrap();
    assert_eq!(first.image, second.image);
    assert_eq!((first.width, first.height), (second.width, second.height));
    assert_eq!(first.bboxes.len(), second.bboxes.len());
    for (a, b) in first.bboxes.iter().zip(second.bboxes.iter()) {
        assert_eq!(
            (a.x, a.y, a.width, a.height, a.image_width, a.image_height, a.class_id),
            (b.x, b.y, b.width, b.height, b.image_width, b.image_height, b.class_id)
        );
    }
}

#[test]
fn annotation_normalizes_by_the_original_size() {
    let ds = dataset((224, 224));
    let item = ds.get(0, Some(&solid(100, 80, [0, 0, 0]))).unwrap();
    assert_eq!(item.bboxes.len(), 2);
    let b: BoundingBox = item.bboxes[0];
    assert_eq!((b.image_width, b.image_height), (100, 80));
    assert_eq!(fraction(b.x, b.image_width), 0.10);
    assert_eq!(fraction(b.y, b.image_height), 0.25);
    assert_eq!(fraction(b.width, b.image_width), 0.30);
    assert_eq!(fraction(b.height, b.image_height), 0.50);
    assert_eq!(b.class_id, 1);
    let second = item.bboxes[1];
    assert_eq!(fraction(second.x, second.image_width), 0.5);
    assert_eq!(fraction(second.height, second.image_height), 0.25);
    assert_eq!(second.class_id, 2);
}

#[test]
fn boxes_carry_the_raw_coordinates() {
    let ds = dataset((8, 8));
    let item = ds.item(1, vec![0; 8 * 8 * 3]).unwrap();
    let ids: Vec<usize> = item.bboxes.iter().map(|b| b.class_id).collect();
    assert_eq!(ids, vec![5, 900, 5]);
    let middle = item.bboxes[1];
    assert_eq!(middle.x, 0.5f32.to_bits());
    assert_eq!(middle.y, 1.5f32.to_bits());
    assert_eq!(middle.width, 2.5f32.to_bits());
    assert_eq!(middle.height, 3.5f32.to_bits());
    assert_eq!((middle.image_width, middle.image_height), (640, 480));
}

#[test]
fn scaling_back_recovers_the_annotation() {
    let ds = dataset((8, 8));
    let raw = [[64.0f32, 48.0, 320.0, 240.0], [0.5, 1.5, 2.5, 3.5], [600.0, 400.0, 100.0, 100.0]];
    let item = ds.item(1, vec![0; 8 * 8 * 3]).unwrap();
    for (b, r) in item.bboxes.iter().zip(raw.iter()) {
        let w = b.image_width as f32;
        let h = b.image_height as f32;
        assert!(close(fraction(b.x, b.image_width) * w, r[0]));
        assert!(close(fraction(b.y, b.image_height) * h, r[1]));
        assert!(close(fraction(b.width, b.image_width) * w, r[2]));
        assert!(close(fraction(b.height, b.image_height) * h, r[3]));
    }
}

#[test]
fn boxes_beyond_the_image_are_not_clamped() {
    let ds = dataset((8, 8));
    let item = ds.item(1, vec![0; 8 * 8 * 3]).unwrap();
    let last = item.bboxes[2];
    assert!(fraction(last.x, last.image_width) + fraction(last.width, last.image_width) > 1.0);
}

#[test]
fn image_without_annotations_has_no_boxes() {
    let ds = dataset((8, 8));
    let item = ds.get(2, Some(&solid(32, 32, [9, 9, 9]))).unwrap();
    assert!(item.bboxes.is_empty());
    assert_eq!(item.image.len(), 8 * 8 * 3);
}

#[test]
fn item_keeps_pixels_and_target_size() {
    let ds = dataset((2, 3));
    let pixels: Vec<u8> = (0..18).collect();
    let item = ds.item(0, pixels.clone()).unwrap();
    assert_eq!(item.image, pixels);
    assert_eq!((item.width, item.height), (2, 3));
}

#[test]
fn item_refuses_a_buffer_of_another_size() {
    let ds = dataset((2, 3));
    assert!(ds.item(0, vec![0; 17]).is_none());
    assert!(ds.item(0, vec![0; 19]).is_none());
    assert!(ds.item(0, Vec::new()).is_none());
}

#[test]
fn load_image_resizes_to_the_target() {
    let ds = dataset((7, 3));
    let pixels = ds.load_image(&solid(4, 4, [10, 20, 30])).unwrap();
    assert_eq!(pixels.len(), 7 * 3 * 3);
    let larger = ds.load_image(&solid(50, 40, [10, 20, 30])).unwrap();
    assert_eq!(larger.len(), 7 * 3 * 3);
}

#[test]
fn load_image_interleaves_red_green_blue() {
    let ds = dataset((5, 4));
    let pixels = ds.load_image(&solid(5, 4, [200, 100, 50])).unwrap();
    assert_eq!(pixels.len(), 60);
    for pixel in pixels.chunks(3) {
        assert_eq!(pixel, [200, 100, 50]);
    }
}

#[test]
fn load_image_keeps_black_and_white() {
    let ds = dataset((6, 6));
    let black = ds.load_image(&solid(13, 11, [0, 0, 0])).unwrap();
    assert!(black.iter().all(|b| *b == 0));
    let white = ds.load_image(&solid(3, 2, [255, 255, 255])).unwrap();
    assert!(white.iter().all(|b| *b == 255));
}

#[test]
fn load_image_converts_other_colour_types() {
    let ds = dataset((4, 4));
    let grey = DynamicImage::new_luma8(10, 10);
    assert_eq!(ds.load_image(&grey).unwrap().len(), 48);
    let deep = DynamicImage::new_rgba16(3, 9);
    assert_eq!(ds.load_image(&deep).unwrap().len(), 48);
}

#[test]
fn load_image_follows_rows_from_the_top() {
    let ds = dataset((2, 2));
    let picture = DynamicImage::ImageRgb8(RgbImage::from_fn(2, 2, |x, y| {
        Rgb([(10 * x) as u8, (10 * y) as u8, 7])
    }));
    let pixels = ds.load_image(&picture).unwrap();
    assert_eq!(pixels, vec![0, 0, 7, 10, 0, 7, 0, 10, 7, 10, 10, 7]);
}

#[test]
fn empty_target_gives_an_empty_buffer() {
    let ds = dataset((0, 5));
    let item = ds.get(0, Some(&solid(4, 4, [1, 1, 1]))).unwrap();
    assert!(item.image.is_empty());
    assert_eq!((item.width, item.height), (0, 5));
    assert_eq!(item.bboxes.len(), 2);
}

#[test]
fn oversized_target_is_refused() {
    let ds = dataset((u32::MAX, u32::MAX));
    assert!(ds.load_image(&solid(1, 1, [0, 0, 0])).is_none());
    assert!(ds.get(0, Some(&solid(1, 1, [0, 0, 0]))).is_none());
}

#[test]
fn rgb_bytes_run_row_by_row() {
    let picture = RgbImage::from_fn(3, 2, |x, y| {
        Rgb([(10 * y + x) as u8, (100 + 10 * y + x) as u8, (200 + 10 * y + x) as u8])
    });
    let bytes = rgb_bytes(&Rgb8Image { image: picture });
    assert_eq!(
        bytes,
        vec![0, 100, 200, 1, 101, 201, 2, 102, 202, 10, 110, 210, 11, 111, 211, 12, 112, 212]
    );
}

#[test]
fn rgb_bytes_of_narrow_and_empty_images() {
    let column = RgbImage::from_fn(1, 3, |_, y| Rgb([y as u8, 50, 60]));
    assert_eq!(rgb_bytes(&Rgb8Image { image: column }), vec![0, 50, 60, 1, 50, 60, 2, 50, 60]);
    assert!(rgb_bytes(&Rgb8Image { image: RgbImage::new(0, 4) }).is_empty());
    assert!(rgb_bytes(&Rgb8Image { image: RgbImage::new(4, 0) }).is_empty());
}

#[test]
fn rgb_bytes_read_the_pixels_not_the_container() {
    let spare = RgbImage::from_raw(1, 1, vec![7, 8, 9, 1, 2, 3]).unwrap();
    assert_eq!(rgb_bytes(&Rgb8Image { image: spare }), vec![7, 8, 9]);
}

#[test]
fn one_red_pixel_stays_red() {
    let ds = dataset((1, 1));
    assert_eq!(ds.load_image(&solid(1, 1, [255, 0, 0])).unwrap(), vec![255, 0, 0]);
    let item = ds.get(2, Some(&solid(1, 1, [255, 0, 0]))).unwrap();
    assert_eq!(item.image, vec![255, 0, 0]);
}

#[test]
fn load_image_twice_gives_the_same_bytes() {
    let ds = dataset((5, 7));
    let picture = DynamicImage::ImageRgb8(RgbImage::from_fn(11, 4, |x, y| {
        Rgb([(x * 23) as u8, (y * 60) as u8, (x * y) as u8])
    }));
    assert_eq!(ds.load_image(&picture), ds.load_image(&picture));
}
