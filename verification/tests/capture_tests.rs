use presentink::capture::{
    normalize_capture, plan_capture, CaptureError, CaptureResult, MonitorDescriptor,
};
use presentink::router::{deliver_capture, plan_delivery, DeliveryAction, DeliveryError};

fn one_monitor(width: u32, height: u32, scale_milli: u32) -> Vec<MonitorDescriptor> {
    vec![MonitorDescriptor {
        index: 0,
        pos_x: 0,
        pos_y: 0,
        width,
        height,
        scale_milli,
    }]
}

fn solid_raster(width: u32, height: u32, rgba: [u8; 4]) -> Vec<u8> {
    let mut bytes = Vec::new();
    for _ in 0..(width as usize * height as usize) {
        bytes.extend_from_slice(&rgba);
    }
    bytes
}

#[test]
fn unit_scale_output_dims_equal_request() {
    let monitors = one_monitor(1920, 1080, 1000);
    let plan = plan_capture(&monitors, 0, 10, 20, 300, 200).unwrap();
    assert_eq!(plan.out_width, 300);
    assert_eq!(plan.out_height, 200);
}

#[test]
fn scaled_output_dims_are_rounded() {
    // scale factor 2.0: 101 physical pixels are 50.5 logical, rounded to 51
    let monitors = one_monitor(2880, 1800, 2000);
    let plan = plan_capture(&monitors, 0, 0, 0, 101, 100).unwrap();
    assert_eq!(plan.out_width, 51);
    assert_eq!(plan.out_height, 50);

    // scale factor 1.25: 99 physical pixels are 79.2 logical, rounded to 79
    let monitors = one_monitor(2000, 1250, 1250);
    let plan = plan_capture(&monitors, 0, 0, 0, 99, 100).unwrap();
    assert_eq!(plan.out_width, 79);
    assert_eq!(plan.out_height, 80);
}

#[test]
fn out_of_bounds_region_is_invalid() {
    let monitors = one_monitor(1920, 1080, 1000);
    // partially outside on the right
    assert_eq!(
        plan_capture(&monitors, 0, 1900, 0, 100, 100),
        Err(CaptureError::InvalidRegion)
    );
    // fully outside below
    assert_eq!(
        plan_capture(&monitors, 0, 0, 1080, 10, 10),
        Err(CaptureError::InvalidRegion)
    );
    // empty rectangle
    assert_eq!(
        plan_capture(&monitors, 0, 0, 0, 0, 10),
        Err(CaptureError::InvalidRegion)
    );
}

#[test]
fn unknown_monitor_index_is_not_found() {
    let monitors = one_monitor(1920, 1080, 1000);
    assert_eq!(
        plan_capture(&monitors, 1, 0, 0, 10, 10),
        Err(CaptureError::MonitorNotFound)
    );
}

#[test]
fn unit_scale_passes_pixels_through() {
    let monitors = one_monitor(64, 64, 1000);
    let plan = plan_capture(&monitors, 0, 0, 0, 2, 2).unwrap();
    let raw = solid_raster(2, 2, [1, 2, 3, 255]);
    let image = normalize_capture(&plan, raw.clone());
    assert_eq!(image.width, 2);
    assert_eq!(image.height, 2);
    assert_eq!(image.bytes, raw);
}

#[test]
fn scaled_capture_resamples_to_logical_size() {
    let monitors = one_monitor(64, 64, 2000);
    let plan = plan_capture(&monitors, 0, 0, 0, 4, 4).unwrap();
    assert_eq!(plan.out_width, 2);
    assert_eq!(plan.out_height, 2);
    let raw = solid_raster(4, 4, [200, 0, 0, 255]);
    let image = normalize_capture(&plan, raw);
    assert_eq!(image.width, 2);
    assert_eq!(image.height, 2);
    assert_eq!(image.bytes.len(), 4 * 2 * 2);
    // a uniform source stays uniform under Lanczos resampling
    assert_eq!(&image.bytes[0..4], &[200, 0, 0, 255]);
}

#[test]
fn saving_to_a_path_encodes_png() {
    let image = CaptureResult {
        width: 2,
        height: 2,
        bytes: solid_raster(2, 2, [9, 8, 7, 255]),
    };
    match plan_delivery(image, true, "shot.png".to_string()).unwrap() {
        DeliveryAction::WriteFile { path, bytes } => {
            assert_eq!(path, "shot.png");
            // the eight-byte PNG signature: the payload is encoded, not raw
            assert_eq!(&bytes[0..8], &[0x89, 0x50, 0x4e, 0x47, 0x0d, 0x0a, 0x1a, 0x0a]);
        }
        other => panic!("expected a file write, got {:?}", other),
    }
}

#[test]
fn unencodable_raster_fails_delivery() {
    // the PNG encoder rejects an empty raster; only the file route encodes
    let image = CaptureResult {
        width: 0,
        height: 0,
        bytes: Vec::new(),
    };
    assert_eq!(
        plan_delivery(image, true, "shot.png".to_string()),
        Err(DeliveryError::EncodeFailed)
    );
}

#[test]
fn clipboard_route_carries_the_raster() {
    let image = CaptureResult {
        width: 2,
        height: 2,
        bytes: solid_raster(2, 2, [9, 8, 7, 255]),
    };
    let expected = image.clone();
    match plan_delivery(image, false, String::new()).unwrap() {
        DeliveryAction::SetClipboard { image } => assert_eq!(image, expected),
        other => panic!("expected a clipboard set, got {:?}", other),
    }
}

#[test]
fn empty_path_save_is_noop_success() {
    let image = CaptureResult {
        width: 2,
        height: 2,
        bytes: solid_raster(2, 2, [9, 8, 7, 255]),
    };
    // success, and neither sink is touched
    let action = plan_delivery(image, true, String::new()).unwrap();
    assert_eq!(action, DeliveryAction::Skip);
}

#[test]
fn second_clipboard_delivery_replaces_the_first() {
    let first = CaptureResult {
        width: 1,
        height: 1,
        bytes: vec![1, 1, 1, 255],
    };
    let second = CaptureResult {
        width: 1,
        height: 1,
        bytes: vec![2, 2, 2, 255],
    };
    let mut clipboard: Option<CaptureResult> = None;
    for image in [first, second.clone()] {
        match plan_delivery(image, false, String::new()).unwrap() {
            DeliveryAction::SetClipboard { image } => clipboard = Some(image),
            other => panic!("expected a clipboard set, got {:?}", other),
        }
    }
    // the clipboard holds the second image only; nothing accumulates
    assert_eq!(clipboard, Some(second));
}

#[test]
fn full_pipeline_routes_scaled_capture_to_clipboard() {
    let monitors = one_monitor(64, 64, 2000);
    let plan = plan_capture(&monitors, 0, 0, 0, 4, 4).unwrap();
    let raw = solid_raster(4, 4, [0, 200, 0, 255]);
    match deliver_capture(&plan, raw, false, String::new()).unwrap() {
        DeliveryAction::SetClipboard { image } => {
            assert_eq!(image.width, 2);
            assert_eq!(image.height, 2);
        }
        other => panic!("expected a clipboard set, got {:?}", other),
    }
}
