use raytracing::dispatch::{dispatch_for, DispatchSize, WORKGROUP_HEIGHT, WORKGROUP_WIDTH};

#[test]
fn workgroups_are_sixteen_by_sixteen() {
    assert_eq!((WORKGROUP_WIDTH, WORKGROUP_HEIGHT), (16, 16));
}

#[test]
fn eight_hundred_by_six_hundred_takes_fifty_by_thirty_eight() {
    assert_eq!(dispatch_for(800, 600), DispatchSize { x: 50, y: 38, z: 1 });
}

#[test]
fn dispatch_rounds_up() {
    assert_eq!(dispatch_for(1, 1), DispatchSize { x: 1, y: 1, z: 1 });
    assert_eq!(dispatch_for(16, 17), DispatchSize { x: 1, y: 2, z: 1 });
    assert_eq!(dispatch_for(15, 32), DispatchSize { x: 1, y: 2, z: 1 });
    assert_eq!(dispatch_for(33, 31), DispatchSize { x: 3, y: 2, z: 1 });
    assert_eq!(dispatch_for(0, 0), DispatchSize { x: 0, y: 0, z: 1 });
}

#[test]
fn dispatch_covers_the_image_and_no_more() {
    for extent in 1..200usize {
        let size = dispatch_for(extent, 2 * extent);
        assert!(size.x * 16 >= extent);
        assert!((size.x - 1) * 16 < extent);
        assert!(size.y * 16 >= 2 * extent);
        assert!((size.y - 1) * 16 < 2 * extent);
        assert_eq!(size.z, 1);
    }
}

#[test]
fn dispatch_for_the_largest_image_does_not_overflow() {
    let size = dispatch_for(usize::MAX, usize::MAX - 15);
    assert_eq!(size.x, usize::MAX / 16 + 1);
    assert_eq!(size.y, usize::MAX / 16);
}
