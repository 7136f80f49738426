use way_edges::geometry::{
    input_region_rect, motion_translate, rotation_transform, Edge, HitRect, SurfaceTransform,
    SUBPIXELS_PER_PIXEL,
};

const PX: u64 = SUBPIXELS_PER_PIXEL;

#[test]
fn left_hit_rect_round_trip() {
    // edge=Left, extent=10, trigger=5, total=(20,50) -> rect=(0,0,15,50)
    let r = input_region_rect(Edge::Left, (20 * PX, 50 * PX), 10 * PX, 5 * PX);
    assert_eq!(r, HitRect { x: 0, y: 0, width: 15, height: 50 });
}

#[test]
fn right_hit_rect_round_trip() {
    // edge=Right, same inputs, total thickness 20 -> rect=(10,0,15,50)
    let r = input_region_rect(Edge::Right, (20 * PX, 50 * PX), 10 * PX, 5 * PX);
    assert_eq!(r, HitRect { x: 10, y: 0, width: 15, height: 50 });
}

#[test]
fn right_hit_rect_fractional_ceiling() {
    // extent=10.3, trigger=5 -> width=ceil(15.3)=16
    let r = input_region_rect(Edge::Right, (20 * PX, 50 * PX), 10_300, 5 * PX);
    assert_eq!(r.width, 16);
    // the back offset 20 - 10.3 = 9.7 truncates to 9
    assert_eq!(r.x, 9);
}

#[test]
fn left_hit_rect_fractional_floor() {
    // Left starts at 0, so the band rounds down: floor(15.3) = 15
    let r = input_region_rect(Edge::Left, (20 * PX, 50 * PX), 10_300, 5 * PX);
    assert_eq!(r.width, 15);
}

#[test]
fn top_hit_rect() {
    let r = input_region_rect(Edge::Top, (20 * PX, 50 * PX), 10 * PX, 5 * PX);
    assert_eq!(r, HitRect { x: 0, y: 0, width: 50, height: 15 });
}

#[test]
fn bottom_hit_rect_fractional_ceiling() {
    let r = input_region_rect(Edge::Bottom, (20 * PX, 50 * PX), 10_300, 5 * PX);
    assert_eq!(r, HitRect { x: 0, y: 9, width: 50, height: 16 });
}

#[test]
fn zero_extent_keeps_trigger_band() {
    // fully hidden: the reserved trigger strip stays interactive
    let r = input_region_rect(Edge::Left, (20 * PX, 50 * PX), 0, 5 * PX);
    assert_eq!(r, HitRect { x: 0, y: 0, width: 5, height: 50 });
}

#[test]
fn rotation_transforms_per_edge() {
    let size = (20 * PX, 50 * PX);
    assert_eq!(
        rotation_transform(Edge::Left, size),
        SurfaceTransform { rotation_deg: 0, translate_x: 0, translate_y: 0 }
    );
    assert_eq!(
        rotation_transform(Edge::Right, size),
        SurfaceTransform {
            rotation_deg: 180,
            translate_x: -(20 * PX as i64),
            translate_y: -(50 * PX as i64)
        }
    );
    assert_eq!(
        rotation_transform(Edge::Top, size),
        SurfaceTransform { rotation_deg: 90, translate_x: 0, translate_y: -(50 * PX as i64) }
    );
    assert_eq!(
        rotation_transform(Edge::Bottom, size),
        SurfaceTransform { rotation_deg: 270, translate_x: -(20 * PX as i64), translate_y: 0 }
    );
}

#[test]
fn motion_translate_per_edge() {
    // canonical edges shift by visible - thickness
    assert_eq!(motion_translate(Edge::Left, 20 * PX, 8 * PX, 5 * PX), -(12 * PX as i64));
    assert_eq!(motion_translate(Edge::Top, 20 * PX, 8 * PX, 5 * PX), -(12 * PX as i64));
    // far edges shift further by the trigger margin
    assert_eq!(motion_translate(Edge::Right, 20 * PX, 8 * PX, 5 * PX), -(17 * PX as i64));
    assert_eq!(motion_translate(Edge::Bottom, 20 * PX, 8 * PX, 5 * PX), -(17 * PX as i64));
    // fully open on a near edge: no shift at all
    assert_eq!(motion_translate(Edge::Left, 20 * PX, 20 * PX, 5 * PX), 0);
}
