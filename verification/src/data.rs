//! Annotation records, the per-image annotation index and the detection
//! dataset built from them.
use crate::raster::{
    image_width, interleaves, lemma_interleaving_is_unique, renders, resample_fits, resize_exact, rgb_bytes,
    rgb_len, to_rgb8, width, Filter, Rgb8Image,
};
use image::DynamicImage;
use std::collections::HashMap;
use vstd::prelude::*;

verus! {

broadcast use vstd::std_specs::hash::group_hash_axioms;

/// The parsed annotation document: images, annotations and categories in
/// document order.
#[derive(Debug)]
pub struct CocoAnnotation {
    pub images: Vec<CocoImage>,
    pub annotations: Vec<CocoAnnotationItem>,
    pub categories: Vec<CocoCategory>,
}

/// One image of the document, with its original pixel dimensions.
#[derive(Debug)]
pub struct CocoImage {
    pub id: u64,
    pub file_name: String,
    pub width: u64,
    pub height: u64,
}

/// One annotation of the document.
///
/// Coordinates are real numbers in the document. They are carried here as the
/// bit patterns of their IEEE-754 encodings, which this library stores and
/// hands on but never interprets: `bbox` holds the binary32 patterns of
/// `[x, y, width, height]` in absolute pixels, `area` the binary64 pattern.
#[derive(Clone, Copy, Debug)]
pub struct CocoAnnotationItem {
    pub id: u64,
    pub image_id: u64,
    pub category_id: u32,
    pub bbox: [u32; 4],
    pub area: u64,
}

/// One category of the document. Categories are kept but never consulted.
#[derive(Debug)]
pub struct CocoCategory {
    pub id: u64,
    pub name: String,
}

/// A bounding box relative to the image it was annotated on.
///
/// Each coordinate is a fraction: `x` and `width` over `image_width`, `y` and
/// `height` over `image_height`. The numerators are the binary32 bit patterns
/// of the annotated pixel coordinates, the denominators the pixel dimensions
/// of the original image. Nothing is clamped, and `class_id` is the
/// annotation's category id as it stands.
#[derive(Clone, Copy, Debug)]
pub struct BoundingBox {
    pub x: u32,
    pub y: u32,
    pub width: u32,
    pub height: u32,
    pub image_width: u64,
    pub image_height: u64,
    pub class_id: usize,
}

/// One sample of the dataset.
///
/// `image` holds `width * height` pixels row by row, each as three bytes in
/// the order red, green, blue; a byte `b` stands for the intensity `b / 255`.
#[derive(Clone, Debug)]
pub struct DetectionItem {
    pub image: Vec<u8>,
    pub width: u32,
    pub height: u32,
    pub bboxes: Vec<BoundingBox>,
}

/// The annotations of `annotations` that belong to image `image_id`, in the
/// order in which they occur.
pub open spec fn annotations_of(annotations: Seq<CocoAnnotationItem>, image_id: u64) -> Seq<
    CocoAnnotationItem,
> {
    annotations.filter(|a: CocoAnnotationItem| a.image_id == image_id)
}

/// The grouping of `annotations` by image: an image id is a key exactly when
/// some annotation carries it, and maps to those annotations in order.
pub open spec fn grouped(annotations: Seq<CocoAnnotationItem>) -> Map<
    u64,
    Seq<CocoAnnotationItem>,
> {
    Map::new(
        |id: u64| annotations_of(annotations, id).len() > 0,
        |id: u64| annotations_of(annotations, id),
    )
}

/// The box that annotation `a` yields on an image of the given original size.
pub open spec fn normalized(a: CocoAnnotationItem, image: CocoImage) -> BoundingBox {
    BoundingBox {
        x: a.bbox[0],
        y: a.bbox[1],
        width: a.bbox[2],
        height: a.bbox[3],
        image_width: image.width,
        image_height: image.height,
        class_id: a.category_id as usize,
    }
}

/// Appending one annotation extends the group of its image and leaves every
/// other group as it was.
pub proof fn lemma_annotations_of_push(
    annotations: Seq<CocoAnnotationItem>,
    a: CocoAnnotationItem,
    image_id: u64,
)
    ensures
        annotations_of(annotations.push(a), image_id) == if a.image_id == image_id {
            annotations_of(annotations, image_id).push(a)
        } else {
            annotations_of(annotations, image_id)
        },
{
    reveal(Seq::filter);
    assert(annotations.push(a).drop_last() == annotations);
}

/// Where no annotation carries the id `image_id`, no annotation is selected
/// for it.
pub proof fn lemma_none_selected(annotations: Seq<CocoAnnotationItem>, image_id: u64)
    requires
        forall|j: int| 0 <= j < annotations.len() ==> annotations[j].image_id != image_id,
    ensures
        annotations_of(annotations, image_id).len() == 0,
    decreases annotations.len(),
{
    if annotations.len() > 0 {
        let rest = annotations.drop_last();
        lemma_none_selected(rest, image_id);
        lemma_annotations_of_push(rest, annotations.last(), image_id);
        assert(rest.push(annotations.last()) == annotations);
    } else {
        reveal(Seq::filter);
    }
}

/// An image id is a key of the grouping exactly when some annotation carries
/// it, and the group of an id holds annotations of that id only.
pub proof fn lemma_grouped_keys_occur(annotations: Seq<CocoAnnotationItem>, image_id: u64)
    ensures
        grouped(annotations).contains_key(image_id) <==> exists|j: int|
            0 <= j < annotations.len() && annotations[j].image_id == image_id,
        forall|k: int|
            0 <= k < annotations_of(annotations, image_id).len() ==> (#[trigger] annotations_of(
                annotations,
                image_id,
            )[k]).image_id == image_id,
{
    let belongs = |a: CocoAnnotationItem| a.image_id == image_id;
    assert forall|k: int| 0 <= k < annotations_of(annotations, image_id).len() implies (
    #[trigger] annotations_of(annotations, image_id)[k]).image_id == image_id by {
        annotations.lemma_filter_pred(belongs, k);
    }
    if exists|j: int| 0 <= j < annotations.len() && annotations[j].image_id == image_id {
        let j = choose|j: int| 0 <= j < annotations.len() && annotations[j].image_id == image_id;
        annotations.lemma_filter_contains(belongs, j);
    } else {
        lemma_none_selected(annotations, image_id);
    }
}

/// Annotations grouped by the image they belong to.
pub struct AnnotationIndex {
    groups: HashMap<u64, Vec<CocoAnnotationItem>>,
}

impl View for AnnotationIndex {
    type V = Map<u64, Seq<CocoAnnotationItem>>;

    closed spec fn view(&self) -> Map<u64, Seq<CocoAnnotationItem>> {
        Map::new(|id: u64| self.groups@.contains_key(id), |id: u64| self.groups@[id]@)
    }
}

impl AnnotationIndex {
    /// Every group holds at least one annotation, and only annotations of the
    /// image that it is filed under.
    #[verifier::type_invariant]
    closed spec fn inv(&self) -> bool {
        forall|id: u64| #[trigger]
            self.groups@.contains_key(id) ==> self.groups@[id]@.len() > 0 && forall|k: int|
                0 <= k < self.groups@[id]@.len() ==> (#[trigger] self.groups@[id]@[k]).image_id
                    == id
    }

    /// Groups `annotations` by image id, keeping document order inside each
    /// group.
    pub fn build(annotations: Vec<CocoAnnotationItem>) -> (index: Self)
        ensures
            index@ == grouped(annotations@),
    {
        let mut groups: HashMap<u64, Vec<CocoAnnotationItem>> = HashMap::new();
        let n = annotations.len();
        let mut i: usize = 0;
        while i < n
            invariant
                n == annotations@.len(),
                i <= n,
                forall|id: u64| #[trigger]
                    groups@.contains_key(id) <==> annotations_of(annotations@.take(i as int), id).len()
                        > 0,
                forall|id: u64| #[trigger]
                    groups@.contains_key(id) ==> groups@[id]@ == annotations_of(
                        annotations@.take(i as int),
                        id,
                    ),
            decreases n - i,
        {
            let item = annotations[i];
            let ghost seen = annotations@.take(i as int);
            proof {
                assert(annotations@.take(i + 1) == seen.push(item));
                assert forall|id: u64|
                    annotations_of(seen.push(item), id) == if item.image_id == id {
                        annotations_of(seen, id).push(item)
                    } else {
                        annotations_of(seen, id)
                    } by {
                    lemma_annotations_of_push(seen, item, id);
                }
            }
            let group = groups.entry(item.image_id).or_insert(Vec::new());
            group.push(item);
            i = i + 1;
        }
        proof {
            assert(annotations@.take(n as int) == annotations@);
            assert forall|id: u64| #[trigger] groups@.contains_key(id) implies forall|k: int|
                0 <= k < groups@[id]@.len() ==> (#[trigger] groups@[id]@[k]).image_id == id by {
                lemma_grouped_keys_occur(annotations@, id);
            }
        }
        let index = AnnotationIndex { groups };
        assert(index@ =~= grouped(annotations@));
        index
    }

    /// The annotations recorded for `image_id`, if there are any: a list
    /// that is not empty and holds annotations of that image only.
    pub fn annotations(&self, image_id: u64) -> (group: Option<&Vec<CocoAnnotationItem>>)
        ensures
            match group {
                Some(found) => {
                    &&& self@.contains_key(image_id)
                    &&& found@ == self@[image_id]
                    &&& found@.len() > 0
                    &&& forall|k: int|
                        0 <= k < found@.len() ==> (#[trigger] found@[k]).image_id == image_id
                },
                None => !self@.contains_key(image_id),
            },
    {
        proof {
            use_type_invariant(self);
        }
        self.groups.get(&image_id)
    }
}

/// What a dataset is made of.
pub struct DatasetView {
    /// The directory that the file names of the images are relative to.
    pub image_dir: Seq<char>,
    /// The images, in document order.
    pub images: Seq<CocoImage>,
    /// The annotations, grouped by image id.
    pub annotations: Map<u64, Seq<CocoAnnotationItem>>,
    /// The (width, height) that every image is resized to.
    pub target_size: (u32, u32),
}

/// What a detection item is made of.
pub struct DetectionItemView {
    pub image: Seq<u8>,
    pub width: u32,
    pub height: u32,
    pub bboxes: Seq<BoundingBox>,
}

impl View for DetectionItem {
    type V = DetectionItemView;

    open spec fn view(&self) -> DetectionItemView {
        DetectionItemView {
            image: self.image@,
            width: self.width,
            height: self.height,
            bboxes: self.bboxes@,
        }
    }
}

/// The dataset that `document` gives rise to.
pub open spec fn dataset_of(
    image_dir: Seq<char>,
    document: CocoAnnotation,
    target_size: (u32, u32),
) -> DatasetView {
    DatasetView {
        image_dir,
        images: document.images@,
        annotations: grouped(document.annotations@),
        target_size,
    }
}

/// The annotations that the dataset holds for its image number `index`:
/// those grouped under the image's id, and none where the id is no key.
pub open spec fn annotations_at(dataset: DatasetView, index: int) -> Seq<CocoAnnotationItem> {
    let id = dataset.images[index].id;
    if dataset.annotations.contains_key(id) {
        dataset.annotations[id]
    } else {
        Seq::empty()
    }
}

/// The boxes of image number `index`: one for each of its annotations, in
/// their order, each relative to the original size of that image.
pub open spec fn boxes_at(dataset: DatasetView, index: int) -> Seq<BoundingBox> {
    Seq::new(
        annotations_at(dataset, index).len(),
        |j: int| normalized(annotations_at(dataset, index)[j], dataset.images[index]),
    )
}

/// The item that the dataset yields for `index` once the image has been
/// brought to `pixels`: none when `index` is out of range or `pixels` is not
/// a buffer of the target size.
pub open spec fn item_at(dataset: DatasetView, index: int, pixels: Seq<u8>) -> Option<
    DetectionItemView,
> {
    if 0 <= index < dataset.images.len() && pixels.len() == rgb_len(
        dataset.target_size.0,
        dataset.target_size.1,
    ) {
        Some(
            DetectionItemView {
                image: pixels,
                width: dataset.target_size.0,
                height: dataset.target_size.1,
                bboxes: boxes_at(dataset, index),
            },
        )
    } else {
        None
    }
}

/// The view of an item that may be absent.
pub open spec fn item_view(item: Option<DetectionItem>) -> Option<DetectionItemView> {
    match item {
        Some(item) => Some(item@),
        None => None,
    }
}

/// A random-access collection of detection items, one per image of an
/// annotation document.
pub struct CocoDetectionDataset {
    image_dir: String,
    images: Vec<CocoImage>,
    annotation_map: AnnotationIndex,
    target_size: (u32, u32),
}

impl View for CocoDetectionDataset {
    type V = DatasetView;

    closed spec fn view(&self) -> DatasetView {
        DatasetView {
            image_dir: self.image_dir@,
            images: self.images@,
            annotations: self.annotation_map@,
            target_size: self.target_size,
        }
    }
}

impl CocoDetectionDataset {
    /// Builds the dataset of a parsed annotation document. Whether the image
    /// files exist is not looked at.
    pub fn new(image_dir: String, document: CocoAnnotation, target_size: (u32, u32)) -> (dataset:
        Self)
        ensures
            dataset@ == dataset_of(image_dir@, document, target_size),
    {
        let annotation_map = AnnotationIndex::build(document.annotations);
        CocoDetectionDataset { image_dir, images: document.images, annotation_map, target_size }
    }

    /// The number of images.
    pub fn len(&self) -> (n: usize)
        ensures
            n == self@.images.len(),
    {
        self.images.len()
    }

    /// The directory that the image files are looked up in.
    pub fn image_dir(&self) -> (dir: &str)
        ensures
            dir@ == self@.image_dir,
    {
        self.image_dir.as_str()
    }

    /// The (width, height) that every image is resized to.
    pub fn target_size(&self) -> (size: (u32, u32))
        ensures
            size == self@.target_size,
    {
        self.target_size
    }

    /// The record of image number `index`, if there is one. Its `file_name`
    /// says which file holds the pixels.
    pub fn image_info(&self, index: usize) -> (info: Option<&CocoImage>)
        ensures
            match info {
                Some(image) => index < self@.images.len() && *image == self@.images[index as int],
                None => index >= self@.images.len(),
            },
    {
        if index < self.images.len() {
            Some(&self.images[index])
        } else {
            None
        }
    }

    /// Whether an image of the given width can be resized to the target size.
    fn can_resample(&self, source_width: u32) -> (fits: bool)
        ensures
            fits == resample_fits(source_width, self@.target_size),
    {
        let limit: u128 = isize::MAX as u128;
        let rows: u128 = 16 * (self.target_size.1 as u128);
        assert(rows * source_width <= 0x10_0000_0000 * 0x1_0000_0000) by (nonlinear_arith)
            requires
                0 <= rows <= 0x10_0000_0000,
                0 <= source_width <= 0x1_0000_0000,
        ;
        assert(rows * self.target_size.0 <= 0x10_0000_0000 * 0x1_0000_0000) by (nonlinear_arith)
            requires
                0 <= rows <= 0x10_0000_0000,
                0 <= self.target_size.0 <= 0x1_0000_0000,
        ;
        assert(16 * source_width * self.target_size.1 == rows * source_width)
            by (nonlinear_arith)
            requires
                rows == 16 * self.target_size.1,
        ;
        assert(16 * self.target_size.0 * self.target_size.1 == rows * self.target_size.0)
            by (nonlinear_arith)
            requires
                rows == 16 * self.target_size.1,
        ;
        rows * (source_width as u128) <= limit && rows * (self.target_size.0 as u128) <= limit
    }

    /// Resizes a decoded image to the target size with the Lanczos filter of
    /// window 3, stretching it where the aspect ratios differ, converts the
    /// result to 8-bit RGB and returns its pixels row by row, each as its red,
    /// green and blue byte. Returns `None` where the image is too large to be
    /// resized within the address space.
    pub fn load_image(&self, decoded: &DynamicImage) -> (pixels: Option<Vec<u8>>)
        ensures
            pixels is Some <==> resample_fits(image_width(*decoded), self@.target_size),
            pixels matches Some(bytes) ==> renders(
                bytes@,
                *decoded,
                self@.target_size,
                Filter::Lanczos3,
            ),
    {
        if !self.can_resample(width(decoded)) {
            return None;
        }
        let resized = resize_exact(
            decoded,
            self.target_size.0,
            self.target_size.1,
            Filter::Lanczos3,
        );
        assert(3 * self.target_size.0 * self.target_size.1 <= 16 * self.target_size.0
            * self.target_size.1) by (nonlinear_arith);
        let rgb = to_rgb8(&resized);
        Some(rgb_bytes(&rgb))
    }

    /// The boxes of image number `index`.
    fn boxes(&self, index: usize) -> (boxes: Vec<BoundingBox>)
        requires
            index < self@.images.len(),
        ensures
            boxes@ == boxes_at(self@, index as int),
    {
        let image = &self.images[index];
        let mut boxes: Vec<BoundingBox> = Vec::new();
        match self.annotation_map.annotations(image.id) {
            Some(group) => {
                let n = group.len();
                let mut j: usize = 0;
                while j < n
                    invariant
                        n == group@.len(),
                        j <= n,
                        boxes@.len() == j,
                        forall|k: int|
                            0 <= k < j ==> boxes@[k] == normalized(#[trigger] group@[k], *image),
                    decreases n - j,
                {
                    let a = group[j];
                    boxes.push(
                        BoundingBox {
                            x: a.bbox[0],
                            y: a.bbox[1],
                            width: a.bbox[2],
                            height: a.bbox[3],
                            image_width: image.width,
                            image_height: image.height,
                            class_id: a.category_id as usize,
                        },
                    );
                    j = j + 1;
                }
            },
            None => {},
        }
        assert(boxes@ =~= boxes_at(self@, index as int));
        boxes
    }

    /// Assembles the item of image number `index` from the pixels that the
    /// image was brought to. There is no item where `index` is out of range,
    /// nor where `pixels` is not a buffer of the target size.
    pub fn item(&self, index: usize, pixels: Vec<u8>) -> (item: Option<DetectionItem>)
        ensures
            item_view(item) == item_at(self@, index as int, pixels@),
    {
        if index >= self.images.len() {
            return None;
        }
        let columns: u128 = 3 * (self.target_size.0 as u128);
        assert(columns * self.target_size.1 <= 0x3_0000_0000 * 0x1_0000_0000) by (nonlinear_arith)
            requires
                0 <= columns <= 0x3_0000_0000,
                0 <= self.target_size.1 <= 0x1_0000_0000,
        ;
        assert(3 * self.target_size.0 * self.target_size.1 == columns * self.target_size.1)
            by (nonlinear_arith)
            requires
                columns == 3 * self.target_size.0,
        ;
        if pixels.len() as u128 != columns * (self.target_size.1 as u128) {
            return None;
        }
        let bboxes = self.boxes(index);
        Some(
            DetectionItem {
                image: pixels,
                width: self.target_size.0,
                height: self.target_size.1,
                bboxes,
            },
        )
    }

    /// The item of image number `index`, given what decoding the image's file
    /// gave: `None` where the file could not be read or decoded.
    ///
    /// There is no item where `index` is out of range, where the image could
    /// not be decoded, or where it is too large to be resized. Otherwise the
    /// item holds the image resized to the target size and one box for each
    /// annotation of the image, relative to the image's original size.
    pub fn get(&self, index: usize, decoded: Option<&DynamicImage>) -> (item: Option<
        DetectionItem,
    >)
        ensures
            item is Some <==> index < self@.images.len() && decoded is Some && resample_fits(
                image_width(*decoded->Some_0),
                self@.target_size,
            ),
            item matches Some(found) ==> item_at(self@, index as int, found.image@) == Some(
                found@,
            ),
            item matches Some(found) ==> renders(
                found.image@,
                *decoded->Some_0,
                self@.target_size,
                Filter::Lanczos3,
            ),
    {
        if index >= self.images.len() {
            return None;
        }
        match decoded {
            Some(image) => match self.load_image(image) {
                Some(pixels) => self.item(index, pixels),
                None => None,
            },
            None => None,
        }
    }
}

/// A dataset has one item position per image of the document, however many
/// annotations and categories the document holds.
pub proof fn lemma_length_counts_images(
    image_dir: Seq<char>,
    document: CocoAnnotation,
    target_size: (u32, u32),
)
    ensures
        dataset_of(image_dir, document, target_size).images.len() == document.images@.len(),
{
}

/// There is no item at an index that is not below the number of images.
pub proof fn lemma_out_of_range_is_absent(dataset: DatasetView, index: int, pixels: Seq<u8>)
    requires
        index < 0 || index >= dataset.images.len(),
    ensures
        item_at(dataset, index, pixels) is None,
{
}

/// What a dataset yields for an index is determined by the dataset, the
/// index and the pixels: two items obtained for the same three agree in
/// every field, and so do two absences.
pub proof fn lemma_items_agree(
    first: Option<DetectionItem>,
    second: Option<DetectionItem>,
    dataset: DatasetView,
    index: int,
    pixels: Seq<u8>,
)
    requires
        item_view(first) == item_at(dataset, index, pixels),
        item_view(second) == item_at(dataset, index, pixels),
    ensures
        item_view(first) == item_view(second),
{
}

/// Two items that a dataset yields for one index agree in their size and
/// in their boxes, and in everything where their pixels agree: nothing but
/// the pixels depends on how the image was decoded and resized.
pub proof fn lemma_items_differ_in_pixels_only(
    dataset: DatasetView,
    index: int,
    first: DetectionItemView,
    second: DetectionItemView,
)
    requires
        item_at(dataset, index, first.image) == Some(first),
        item_at(dataset, index, second.image) == Some(second),
    ensures
        first.width == second.width,
        first.height == second.height,
        first.bboxes == second.bboxes,
        first.image.len() == second.image.len(),
        first.image == second.image ==> first == second,
{
}

/// Two items that a dataset yields for one index from one resized image are
/// equal in every field: once the resized image is the same, nothing is left
/// open.
pub proof fn lemma_same_image_same_item(
    dataset: DatasetView,
    index: int,
    resized: Rgb8Image,
    first: DetectionItemView,
    second: DetectionItemView,
)
    requires
        item_at(dataset, index, first.image) == Some(first),
        item_at(dataset, index, second.image) == Some(second),
        interleaves(first.image, resized),
        interleaves(second.image, resized),
    ensures
        first == second,
{
    lemma_interleaving_is_unique(first.image, second.image, resized);
}

/// The item of an image whose id no annotation carries has no boxes, and
/// the target size like any other item.
pub proof fn lemma_unannotated_item_has_no_boxes(
    image_dir: Seq<char>,
    document: CocoAnnotation,
    target_size: (u32, u32),
    index: int,
    found: DetectionItemView,
)
    requires
        item_at(dataset_of(image_dir, document, target_size), index, found.image) == Some(found),
        forall|j: int|
            0 <= j < document.annotations@.len() ==> document.annotations@[j].image_id
                != document.images@[index].id,
    ensures
        found.bboxes == Seq::<BoundingBox>::empty(),
        found.width == target_size.0,
        found.height == target_size.1,
        found.image.len() == rgb_len(target_size.0, target_size.1),
{
    lemma_unannotated_image_has_no_boxes(image_dir, document, target_size, index);
}

/// In the dataset of a document, the annotations of an image are those of
/// the document that carry the image's id, in document order.
pub proof fn lemma_annotations_follow_document(
    image_dir: Seq<char>,
    document: CocoAnnotation,
    target_size: (u32, u32),
    index: int,
)
    requires
        0 <= index < document.images@.len(),
    ensures
        annotations_at(dataset_of(image_dir, document, target_size), index) == annotations_of(
            document.annotations@,
            document.images@[index].id,
        ),
{
    let selected = annotations_of(document.annotations@, document.images@[index].id);
    if selected.len() == 0 {
        assert(selected =~= Seq::empty());
    }
}

/// An image whose id no annotation carries has an empty list of boxes.
pub proof fn lemma_unannotated_image_has_no_boxes(
    image_dir: Seq<char>,
    document: CocoAnnotation,
    target_size: (u32, u32),
    index: int,
)
    requires
        0 <= index < document.images@.len(),
        forall|j: int|
            0 <= j < document.annotations@.len() ==> document.annotations@[j].image_id
                != document.images@[index].id,
    ensures
        boxes_at(dataset_of(image_dir, document, target_size), index) == Seq::<
            BoundingBox,
        >::empty(),
{
    lemma_annotations_follow_document(image_dir, document, target_size, index);
    lemma_none_selected(document.annotations@, document.images@[index].id);
    assert(boxes_at(dataset_of(image_dir, document, target_size), index) =~= Seq::<
        BoundingBox,
    >::empty());
}

/// Every box keeps what it was made from: its numerators are the annotated
/// coordinates bit for bit, its denominators the original dimensions of the
/// image and not the target size, and its class the annotation's category.
/// Scaling a box back by its own denominators therefore gives the annotation.
pub proof fn lemma_boxes_keep_annotations(dataset: DatasetView, index: int, j: int)
    requires
        0 <= index < dataset.images.len(),
        0 <= j < annotations_at(dataset, index).len(),
    ensures
        boxes_at(dataset, index).len() == annotations_at(dataset, index).len(),
        boxes_at(dataset, index)[j].x == annotations_at(dataset, index)[j].bbox[0],
        boxes_at(dataset, index)[j].y == annotations_at(dataset, index)[j].bbox[1],
        boxes_at(dataset, index)[j].width == annotations_at(dataset, index)[j].bbox[2],
        boxes_at(dataset, index)[j].height == annotations_at(dataset, index)[j].bbox[3],
        boxes_at(dataset, index)[j].image_width == dataset.images[index].width,
        boxes_at(dataset, index)[j].image_height == dataset.images[index].height,
        boxes_at(dataset, index)[j].class_id == annotations_at(dataset, index)[j].category_id,
{
}

} // verus!
