use life_compute::grid::{GridDimensions, WORKGROUP_WIDTH};

#[test]
fn width_of_ten_is_refused() {
    assert!(GridDimensions::new(10, 64).is_none());
    assert!(GridDimensions::new(64, 10).is_none());
    assert!(GridDimensions::new(10, 10).is_none());
}

#[test]
fn empty_grids_are_refused() {
    assert!(GridDimensions::new(0, 64).is_none());
    assert!(GridDimensions::new(64, 0).is_none());
    assert!(GridDimensions::new(0, 0).is_none());
}

#[test]
fn sizes_beside_a_multiple_of_eight_are_refused() {
    assert!(GridDimensions::new(7, 8).is_none());
    assert!(GridDimensions::new(9, 8).is_none());
    assert!(GridDimensions::new(8, 4294967295).is_none());
    assert!(GridDimensions::new(8, 8).is_some());
}

#[test]
fn dimensions_keep_what_they_were_made_with() {
    let dimensions = GridDimensions::new(512, 256).expect("multiples of eight");
    assert_eq!(dimensions.width(), 512);
    assert_eq!(dimensions.height(), 256);
    assert_eq!(dimensions.cell_count(), 131072);
}

#[test]
fn workgroups_of_512_by_256() {
    let dimensions = GridDimensions::new(512, 256).expect("multiples of eight");
    assert_eq!(dimensions.workgroup_counts(), (64, 32, 1));
}

#[test]
fn workgroups_of_64_by_64() {
    let dimensions = GridDimensions::new(64, 64).expect("multiples of eight");
    assert_eq!(dimensions.workgroup_counts(), (8, 8, 1));
}

#[test]
fn workgroups_of_the_largest_grid() {
    let largest = 4294967288u32;
    let dimensions = GridDimensions::new(largest, 8).expect("multiples of eight");
    assert_eq!(dimensions.workgroup_counts(), (536870911, 1, 1));
    assert_eq!(dimensions.cell_count(), 34359738304);
    let square = GridDimensions::new(largest, largest).expect("multiples of eight");
    assert_eq!(square.cell_count(), 18446744004990074944);
}

#[test]
fn workgroups_cover_every_eligible_size() {
    for size in [64u32, 128, 256, 512, 1024, 2048] {
        let dimensions = GridDimensions::new(size, size).expect("multiples of eight");
        let (x, y, z) = dimensions.workgroup_counts();
        assert_eq!(x * WORKGROUP_WIDTH, size);
        assert_eq!(y * WORKGROUP_WIDTH, size);
        assert_eq!(z, 1);
    }
}
