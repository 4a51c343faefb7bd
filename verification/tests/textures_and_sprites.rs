use win_sdf_ui::fullscreen_sprite::FullscreenSprite;
use win_sdf_ui::textures::texture_size;

#[test]
fn texture_size_keeps_nonempty_viewports() {
    let s = texture_size(800, 600);
    assert_eq!((s.width, s.height, s.depth_or_array_layers), (800, 600, 1));
}

#[test]
fn texture_size_is_never_zero() {
    let s = texture_size(0, 0);
    assert_eq!((s.width, s.height, s.depth_or_array_layers), (1, 1, 1));
    let s = texture_size(0, 5);
    assert_eq!((s.width, s.height), (1, 5));
}

#[test]
fn sprite_starts_windowed() {
    let sprite: FullscreenSprite<(u32, u32)> = FullscreenSprite::default();
    assert!(!sprite.is_fullscreen);
    assert!(sprite.original_size.is_none());
    assert_eq!(sprite.displayed_size((10, 10)), None);
}

#[test]
fn toggle_key_switches_and_restores() {
    let mut sprite: FullscreenSprite<(u32, u32)> = FullscreenSprite::default();
    sprite.record_original_size(Some((512, 512)));
    assert_eq!(sprite.displayed_size((1920, 1080)), Some((512, 512)));
    sprite.on_toggle_key(true);
    assert!(sprite.is_fullscreen);
    assert_eq!(sprite.displayed_size((1920, 1080)), Some((1920, 1080)));
    sprite.on_toggle_key(false);
    assert!(sprite.is_fullscreen);
    sprite.on_toggle_key(true);
    assert!(!sprite.is_fullscreen);
    assert_eq!(sprite.displayed_size((1920, 1080)), Some((512, 512)));
}

#[test]
fn toggle_flips() {
    let mut sprite: FullscreenSprite<u8> = FullscreenSprite { is_fullscreen: true, original_size: Some(3) };
    sprite.toggle();
    assert!(!sprite.is_fullscreen);
    assert_eq!(sprite.original_size, Some(3));
}
