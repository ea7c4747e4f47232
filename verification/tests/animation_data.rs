use fightcore::animation::{
    Animation, ConfigurationError, FrameData, HitboxInfo, HitboxPosition,
};
use fightcore::fixed_point::{FixedPoint, Vec2};

fn placement(id: usize, raw: i32) -> HitboxPosition {
    HitboxPosition {
        id,
        pos: Vec2 { x: FixedPoint(raw), y: FixedPoint(raw) },
        size: Vec2 { x: FixedPoint(256), y: FixedPoint(256) },
        enabled: true,
    }
}

fn info(id: usize) -> HitboxInfo {
    HitboxInfo { id, tag: 0, is_hurtbox: true }
}

#[test]
fn an_empty_frame_table_is_rejected() {
    assert_eq!(
        Animation::new(vec![], vec![info(0)]),
        Err(ConfigurationError::EmptyAnimation)
    );
}

#[test]
fn a_duplicated_box_identifier_is_rejected() {
    assert_eq!(
        Animation::new(
            vec![FrameData { delay: 1, hitboxes: vec![] }],
            vec![info(0), info(1), info(0)],
        ),
        Err(ConfigurationError::DuplicateHitboxId)
    );
}

#[test]
fn an_unresolvable_placement_is_rejected() {
    assert_eq!(
        Animation::new(
            vec![FrameData { delay: 1, hitboxes: vec![placement(7, 0)] }],
            vec![info(0)],
        ),
        Err(ConfigurationError::UnknownHitboxId)
    );
}

#[test]
fn out_of_range_geometry_is_rejected() {
    assert_eq!(
        Animation::new(
            vec![FrameData { delay: 1, hitboxes: vec![placement(0, i32::MAX)] }],
            vec![info(0)],
        ),
        Err(ConfigurationError::HitboxGeometryOutOfRange)
    );
}

#[test]
fn valid_tables_are_accepted() {
    let anim = Animation::new(
        vec![FrameData { delay: 3, hitboxes: vec![placement(0, -1280)] }],
        vec![info(0)],
    )
    .unwrap();
    assert_eq!(anim.frame_data.len(), 1);
    assert_eq!(anim.frame_data[0].delay, 3);
    assert_eq!(anim.hitboxes.len(), 1);
}
