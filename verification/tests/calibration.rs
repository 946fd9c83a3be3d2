use stdvis::{
    all_sizes_equal, apply_calibration, fixed_point_index, has_min_images, Calibrate,
    CameraConfig, ShapeError,
};

fn session(board_rows: u8, board_cols: u8) -> Calibrate {
    Calibrate {
        square_size_mm: 0,
        board_rows,
        board_cols,
        camera_config: String::from("camera.json"),
        debug_dir: None,
        image_paths: vec![],
    }
}

#[test]
fn inner_corner_counts() {
    let c = session(3, 4);
    assert_eq!(c.width(), 3);
    assert_eq!(c.height(), 2);
}

#[test]
fn checkerboard_grid_is_column_major() {
    let c = session(3, 4);
    let points = c.compute_checkerboard_obj_points();
    assert_eq!(
        points,
        vec![(0, 0), (0, 1), (1, 0), (1, 1), (2, 0), (2, 1)]
    );
}

#[test]
fn degenerate_boards_have_no_corners() {
    assert_eq!(session(1, 4).compute_checkerboard_obj_points(), vec![]);
    assert_eq!(session(3, 1).compute_checkerboard_obj_points(), vec![]);
}

#[test]
fn fixed_reference_is_second_to_last_corner() {
    let c = session(3, 4);
    let points = c.compute_checkerboard_obj_points();
    assert_eq!(fixed_point_index(points.len()), 4);
}

#[test]
fn minimum_image_count() {
    assert!(!has_min_images(0));
    assert!(!has_min_images(2));
    assert!(has_min_images(3));
    assert!(has_min_images(10));
}

#[test]
fn size_consistency_check() {
    assert!(all_sizes_equal(&vec![]));
    assert!(all_sizes_equal(&vec![(640, 480)]));
    assert!(all_sizes_equal(&vec![(640, 480), (640, 480), (640, 480)]));
    assert!(!all_sizes_equal(&vec![(640, 480), (1280, 720)]));
    assert!(!all_sizes_equal(&vec![(640, 480), (640, 480), (640, 481)]));
}

#[test]
fn calibration_results_persist() {
    let mut config = CameraConfig::default();
    config.id = 3;
    let intrinsic: Vec<u64> = (1..=9).collect();
    let distortion: Vec<u64> = (10..=14).collect();

    apply_calibration(&mut config, intrinsic.clone(), distortion.clone()).unwrap();
    assert_eq!(config.intrinsic_matrix, intrinsic);
    assert_eq!(config.distortion_coeffs, distortion);
    assert_eq!(config.id, 3);
}

#[test]
fn malformed_calibration_rejected() {
    let mut config = CameraConfig::default();
    let r = apply_calibration(&mut config, vec![1, 2, 3], vec![1, 2, 3, 4, 5]);
    assert_eq!(r.unwrap_err(), ShapeError::InconsistentMetadata);
    assert!(config.intrinsic_matrix.is_empty());
    assert!(config.distortion_coeffs.is_empty());

    let r = apply_calibration(&mut config, (1..=9).collect(), vec![]);
    assert_eq!(r.unwrap_err(), ShapeError::InconsistentMetadata);
    assert!(config.distortion_coeffs.is_empty());
}
