use burn::backend::ndarray::NdArrayDevice;
use burn::tensor::{DType, Tensor};
use my_detection::layers::Tensor4;
use my_detection::model::{
    Backbone, BackboneConfig, ForwardError, FpnOutput, Neck, NeckConfig,
};
use my_detection::shape::{ConvGeometry, Padding, Shape4, MAX_EXTENT};

fn zeros(dims: [usize; 4]) -> Tensor4 {
    Tensor4 { tensor: Tensor::zeros(dims, &NdArrayDevice::default()) }
}

fn double_zeros(dims: [usize; 4]) -> Tensor4 {
    Tensor4 { tensor: Tensor::zeros(dims, &NdArrayDevice::default()).cast(DType::F64) }
}

fn refused_shapes<T>(result: Result<T, ForwardError>) -> Vec<Shape4> {
    match result {
        Err(ForwardError::ShapeMismatch(shapes)) => shapes,
        Err(ForwardError::Precision) => panic!("refused for the precision"),
        Ok(_) => panic!("not refused"),
    }
}

fn dims(t: &Tensor4) -> [usize; 4] {
    t.tensor.dims()
}

fn shape(dims: [usize; 4]) -> Shape4 {
    Shape4 { batch: dims[0], channels: dims[1], height: dims[2], width: dims[3] }
}

fn backbone(channels: [usize; 3]) -> Backbone {
    let config = BackboneConfig::new(channels);
    assert!(config.is_valid());
    config.init(&NdArrayDevice::default())
}

fn neck(out_channels: usize, in_channels: [usize; 3]) -> Neck {
    let config = NeckConfig { out_channels, in_channels };
    assert!(config.is_valid());
    config.init(&NdArrayDevice::default())
}

#[test]
fn backbone_config_defaults_to_kernel_three() {
    let config = BackboneConfig::new([8, 16, 32]);
    assert_eq!(config.kernel_size, 3);
    assert_eq!(config.channels, [8, 16, 32]);
    let wider = config.with_kernel_size(5);
    assert_eq!(wider.kernel_size, 5);
    assert_eq!(wider.channels, [8, 16, 32]);
}

#[test]
fn backbone_config_validity() {
    assert!(BackboneConfig::new([64, 128, 256]).is_valid());
    assert!(BackboneConfig::new([1, 1, 1]).is_valid());
    assert!(BackboneConfig::new([4, 4, 4]).with_kernel_size(1).is_valid());
    assert!(!BackboneConfig::new([4, 4, 4]).with_kernel_size(2).is_valid());
    assert!(!BackboneConfig::new([4, 4, 4]).with_kernel_size(0).is_valid());
    assert!(!BackboneConfig::new([0, 4, 4]).is_valid());
    assert!(!BackboneConfig::new([4, 0, 4]).is_valid());
    assert!(!BackboneConfig::new([4, 4, 0]).is_valid());
    assert!(!BackboneConfig::new([4, 4, usize::MAX]).is_valid());
}

#[test]
fn neck_config_validity() {
    assert!(NeckConfig { out_channels: 128, in_channels: [64, 128, 256] }.is_valid());
    assert!(!NeckConfig { out_channels: 0, in_channels: [64, 128, 256] }.is_valid());
    assert!(!NeckConfig { out_channels: 8, in_channels: [4, 4, 0] }.is_valid());
    assert!(!NeckConfig { out_channels: usize::MAX, in_channels: [1, 1, 1] }.is_valid());
    assert!(!NeckConfig { out_channels: 8, in_channels: [usize::MAX, 1, 1] }.is_valid());
}

#[test]
fn neck_config_fits_backbone_config() {
    let backbone = BackboneConfig::new([64, 128, 256]);
    assert!(NeckConfig { out_channels: 128, in_channels: [64, 128, 256] }.fits(&backbone));
    assert!(!NeckConfig { out_channels: 128, in_channels: [64, 128, 128] }.fits(&backbone));
    assert!(!NeckConfig { out_channels: 64, in_channels: [128, 64, 256] }.fits(&backbone));
}

#[test]
fn backbone_halves_three_times() {
    let maps = backbone([4, 8, 16]).forward(zeros([1, 3, 224, 224]));
    assert_eq!(maps.len(), 3);
    assert_eq!(dims(&maps[0]), [1, 4, 112, 112]);
    assert_eq!(dims(&maps[1]), [1, 8, 56, 56]);
    assert_eq!(dims(&maps[2]), [1, 16, 28, 28]);
}

#[test]
fn backbone_keeps_batch_and_follows_each_axis() {
    let maps = backbone([2, 3, 5]).forward(zeros([3, 3, 16, 40]));
    assert_eq!(dims(&maps[0]), [3, 2, 8, 20]);
    assert_eq!(dims(&maps[1]), [3, 3, 4, 10]);
    assert_eq!(dims(&maps[2]), [3, 5, 2, 5]);
}

#[test]
fn backbone_with_other_kernels() {
    let five = BackboneConfig::new([2, 2, 2]).with_kernel_size(5);
    assert!(five.is_valid());
    let maps = five.init(&NdArrayDevice::default()).forward(zeros([1, 3, 8, 8]));
    assert_eq!(dims(&maps[0]), [1, 2, 4, 4]);
    assert_eq!(dims(&maps[2]), [1, 2, 1, 1]);
    let one = BackboneConfig::new([2, 2, 2]).with_kernel_size(1);
    let maps = one.init(&NdArrayDevice::default()).forward(zeros([2, 3, 8, 16]));
    assert_eq!(dims(&maps[1]), [2, 2, 2, 4]);
}

#[test]
fn backbone_accepts_only_images_it_can_halve() {
    let b = backbone([4, 8, 16]);
    assert!(b.accepts(&shape([1, 3, 224, 224])));
    assert!(b.accepts(&shape([5, 3, 8, 8])));
    assert!(!b.accepts(&shape([1, 4, 224, 224])));
    assert!(!b.accepts(&shape([1, 1, 224, 224])));
    assert!(!b.accepts(&shape([1, 3, 220, 224])));
    assert!(!b.accepts(&shape([1, 3, 224, 4])));
    assert!(!b.accepts(&shape([1, 3, 0, 224])));
    assert!(!b.accepts(&shape([0, 3, 224, 224])));
    assert!(!b.accepts(&shape([1, 3, MAX_EXTENT + 8, 224])));
    assert!(!b.accepts(&shape([usize::MAX, 3, 224, 224])));
}

#[test]
fn backbone_try_forward_reports_the_shape() {
    let b = backbone([4, 8, 16]);
    let maps = b.try_forward(zeros([1, 3, 32, 32])).unwrap();
    assert_eq!(dims(&maps[2]), [1, 16, 4, 4]);
    let refused = refused_shapes(b.try_forward(zeros([1, 3, 30, 32])));
    assert_eq!(refused, vec![shape([1, 3, 30, 32])]);
    let refused = refused_shapes(b.try_forward(zeros([2, 1, 32, 32])));
    assert_eq!(refused, vec![shape([2, 1, 32, 32])]);
}

#[test]
fn neck_keeps_the_size_of_each_level() {
    let n = neck(6, [4, 8, 16]);
    let features = vec![zeros([1, 4, 112, 112]), zeros([1, 8, 56, 56]), zeros([1, 16, 28, 28])];
    let out: FpnOutput = n.forward(features);
    assert_eq!(dims(&out.p3), [1, 6, 112, 112]);
    assert_eq!(dims(&out.p4), [1, 6, 56, 56]);
    assert_eq!(dims(&out.p5), [1, 6, 28, 28]);
}

#[test]
fn neck_halves_rounding_up() {
    let n = neck(3, [2, 2, 2]);
    let features = vec![zeros([2, 2, 7, 9]), zeros([2, 2, 4, 5]), zeros([2, 2, 2, 3])];
    let out = n.forward(features);
    assert_eq!(dims(&out.p3), [2, 3, 7, 9]);
    assert_eq!(dims(&out.p4), [2, 3, 4, 5]);
    assert_eq!(dims(&out.p5), [2, 3, 2, 3]);
    let smallest = vec![zeros([1, 2, 1, 1]), zeros([1, 2, 1, 1]), zeros([1, 2, 1, 1])];
    let out = n.forward(smallest);
    assert_eq!(dims(&out.p5), [1, 3, 1, 1]);
}

#[test]
fn neck_accepts_only_matching_maps() {
    let n = neck(6, [4, 8, 16]);
    let good = vec![shape([1, 4, 16, 16]), shape([1, 8, 8, 8]), shape([1, 16, 4, 4])];
    assert!(n.accepts(&good));
    let channels = vec![shape([1, 4, 16, 16]), shape([1, 8, 8, 8]), shape([1, 8, 4, 4])];
    assert!(!n.accepts(&channels));
    let size = vec![shape([1, 4, 16, 16]), shape([1, 8, 8, 8]), shape([1, 16, 3, 4])];
    assert!(!n.accepts(&size));
    let floor = vec![shape([1, 4, 7, 7]), shape([1, 8, 3, 3]), shape([1, 16, 1, 1])];
    assert!(!n.accepts(&floor));
    let batch = vec![shape([1, 4, 16, 16]), shape([2, 8, 8, 8]), shape([1, 16, 4, 4])];
    assert!(!n.accepts(&batch));
    let two = vec![shape([1, 4, 16, 16]), shape([1, 8, 8, 8])];
    assert!(!n.accepts(&two));
    let four = vec![
        shape([1, 4, 16, 16]),
        shape([1, 8, 8, 8]),
        shape([1, 16, 4, 4]),
        shape([1, 16, 2, 2]),
    ];
    assert!(!n.accepts(&four));
    let empty = vec![shape([0, 4, 16, 16]), shape([0, 8, 8, 8]), shape([0, 16, 4, 4])];
    assert!(!n.accepts(&empty));
}

#[test]
fn neck_try_forward_reports_mismatched_channels() {
    let n = neck(6, [4, 8, 16]);
    let features = vec![zeros([1, 4, 16, 16]), zeros([1, 8, 8, 8]), zeros([1, 12, 4, 4])];
    let refused = refused_shapes(n.try_forward(features));
    assert_eq!(refused, vec![shape([1, 4, 16, 16]), shape([1, 8, 8, 8]), shape([1, 12, 4, 4])]);
    let features = vec![zeros([1, 4, 16, 16]), zeros([1, 8, 8, 8]), zeros([1, 16, 4, 4])];
    let out = n.try_forward(features).unwrap();
    assert_eq!(dims(&out.p4), [1, 6, 8, 8]);
}

#[test]
fn backbone_feeds_neck() {
    let device = NdArrayDevice::default();
    let backbone_config = BackboneConfig { channels: [64, 128, 256], kernel_size: 3 };
    let neck_config = NeckConfig { out_channels: 128, in_channels: [64, 128, 256] };
    assert!(backbone_config.is_valid() && neck_config.is_valid());
    assert!(neck_config.fits(&backbone_config));
    let backbone = backbone_config.init(&device);
    let neck = neck_config.init(&device);
    let features = backbone.forward(zeros([1, 3, 224, 224]));
    assert_eq!(features.len(), 3);
    assert_eq!(dims(&features[0]), [1, 64, 112, 112]);
    assert_eq!(dims(&features[1]), [1, 128, 56, 56]);
    assert_eq!(dims(&features[2]), [1, 256, 28, 28]);
    let out = neck.forward(features);
    assert_eq!(dims(&out.p3), [1, 128, 112, 112]);
    assert_eq!(dims(&out.p4), [1, 128, 56, 56]);
    assert_eq!(dims(&out.p5), [1, 128, 28, 28]);
}

#[test]
fn shape_storable() {
    assert!(shape([1, 3, 224, 224]).is_storable());
    assert!(shape([1, 1, 1, 1]).is_storable());
    assert!(!shape([0, 3, 224, 224]).is_storable());
    assert!(!shape([1, 3, 224, 0]).is_storable());
    assert!(!shape([usize::MAX, 1, 1, 1]).is_storable());
    assert!(!shape([usize::MAX / 2, 2, 2, 1]).is_storable());
    let limit = isize::MAX as usize / 4;
    assert!(shape([limit, 1, 1, 1]).is_storable());
    assert!(shape([1, 1, 1, limit]).is_storable());
    assert!(!shape([limit + 1, 1, 1, 1]).is_storable());
    assert!(!shape([limit, 1, 2, 1]).is_storable());
}

#[test]
fn conv_geometry_well_formed() {
    let base = ConvGeometry {
        in_channels: 3,
        out_channels: 8,
        kernel: 3,
        stride: 1,
        padding: Padding::Same,
    };
    assert!(base.is_wf());
    assert!(!ConvGeometry { kernel: 4, ..base }.is_wf());
    assert!(!ConvGeometry { stride: 2, ..base }.is_wf());
    assert!(ConvGeometry { stride: 2, padding: Padding::Explicit(1), ..base }.is_wf());
    assert!(ConvGeometry { kernel: 4, padding: Padding::Valid, ..base }.is_wf());
    assert!(!ConvGeometry { stride: 0, padding: Padding::Valid, ..base }.is_wf());
    assert!(!ConvGeometry { kernel: 0, padding: Padding::Valid, ..base }.is_wf());
    assert!(!ConvGeometry { in_channels: 0, ..base }.is_wf());
    assert!(!ConvGeometry { padding: Padding::Explicit(MAX_EXTENT + 1), ..base }.is_wf());
    assert!(!ConvGeometry { kernel: MAX_EXTENT + 1, ..base }.is_wf());
}

#[test]
fn feature_maps_are_not_negative() {
    let maps = backbone([16, 16, 16]).forward(zeros([2, 3, 16, 16]));
    for map in maps.iter() {
        let least: f32 = map.tensor.clone().min().into_scalar();
        assert!(least >= 0.0);
    }
}

#[test]
fn fused_maps_of_unequal_height_and_width() {
    let b = backbone([2, 4, 6]);
    let n = neck(5, [2, 4, 6]);
    let out = n.forward(b.forward(zeros([2, 3, 24, 8])));
    assert_eq!(dims(&out.p3), [2, 5, 12, 4]);
    assert_eq!(dims(&out.p4), [2, 5, 6, 2]);
    assert_eq!(dims(&out.p5), [2, 5, 3, 1]);
}

#[test]
fn backbone_refuses_double_precision() {
    let b = backbone([4, 8, 16]);
    assert!(matches!(
        b.try_forward(double_zeros([1, 3, 224, 224])),
        Err(ForwardError::Precision)
    ));
    assert!(matches!(b.try_forward(double_zeros([1, 3, 30, 32])), Err(ForwardError::Precision)));
    assert!(b.try_forward(zeros([1, 3, 16, 16])).is_ok());
}

#[test]
fn neck_refuses_double_precision() {
    let n = neck(6, [4, 8, 16]);
    let mixed = vec![zeros([1, 4, 16, 16]), double_zeros([1, 8, 8, 8]), zeros([1, 16, 4, 4])];
    assert!(matches!(n.try_forward(mixed), Err(ForwardError::Precision)));
    let deepest = vec![zeros([1, 4, 16, 16]), zeros([1, 8, 8, 8]), double_zeros([1, 16, 4, 4])];
    assert!(matches!(n.try_forward(deepest), Err(ForwardError::Precision)));
    let all = vec![
        double_zeros([1, 4, 16, 16]),
        double_zeros([1, 8, 8, 8]),
        double_zeros([1, 16, 4, 4]),
    ];
    assert!(matches!(n.try_forward(all), Err(ForwardError::Precision)));
}

#[test]
fn results_are_single_precision() {
    let maps = backbone([2, 4, 6]).try_forward(zeros([1, 3, 16, 16])).unwrap();
    for map in maps.iter() {
        assert_eq!(map.tensor.dtype(), DType::F32);
    }
    let out = neck(5, [2, 4, 6]).try_forward(maps).unwrap();
    assert_eq!(out.p3.tensor.dtype(), DType::F32);
    assert_eq!(out.p4.tensor.dtype(), DType::F32);
    assert_eq!(out.p5.tensor.dtype(), DType::F32);
}

#[test]
fn forward_on_the_same_input_gives_the_same_maps() {
    let b = backbone([3, 3, 3]);
    let n = neck(4, [3, 3, 3]);
    let image = Tensor4 {
        tensor: Tensor::ones([1, 3, 16, 16], &NdArrayDevice::default()).mul_scalar(0.25),
    };
    let again = Tensor4 { tensor: image.tensor.clone() };
    let first = n.forward(b.forward(image));
    let second = n.forward(b.forward(again));
    let same = |a: &Tensor4, b: &Tensor4| {
        a.tensor.clone().to_data().to_vec::<f32>().unwrap()
            == b.tensor.clone().to_data().to_vec::<f32>().unwrap()
    };
    assert!(same(&first.p3, &second.p3));
    assert!(same(&first.p4, &second.p4));
    assert!(same(&first.p5, &second.p5));
}
