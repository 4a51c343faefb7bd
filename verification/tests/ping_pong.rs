use win_sdf_ui::ping_pong::{PingPongTextureType, PingPongTextures, SdfTextures};

#[test]
fn new_pair_reads_a() {
    let pair = PingPongTextures::new("a", "b");
    assert!(pair.read() == PingPongTextureType::A);
    assert_eq!(*pair.read_current(), "a");
}

#[test]
fn initial_write_goes_from_a_to_b_without_swapping() {
    let mut pair = PingPongTextures::new("a", "b");
    {
        let w = pair.initial_write();
        assert_eq!(*w.source, "a");
        assert_eq!(*w.destination, "b");
    }
    assert!(pair.read() == PingPongTextureType::A);
    let w = pair.initial_write();
    assert_eq!(*w.source, "a");
}

#[test]
fn writes_alternate() {
    let mut pair = PingPongTextures::new(1u32, 2u32);
    {
        let w = pair.write();
        assert_eq!((*w.source, *w.destination), (1, 2));
    }
    assert!(pair.read() == PingPongTextureType::B);
    assert_eq!(*pair.read_current(), 2);
    {
        let w = pair.write();
        assert_eq!((*w.source, *w.destination), (2, 1));
    }
    assert!(pair.read() == PingPongTextureType::A);
    assert_eq!(*pair.read_current(), 1);
}

#[test]
fn each_pass_reads_what_the_previous_pass_wrote() {
    let mut pair = PingPongTextures::new('x', 'y');
    let mut last_destination = None;
    for _ in 0..5 {
        let w = pair.write();
        if let Some(d) = last_destination {
            assert_eq!(*w.source, d);
        }
        assert_ne!(*w.source, *w.destination);
        last_destination = Some(*w.destination);
    }
}

#[test]
fn sdf_textures_start_on_a() {
    let sdf = SdfTextures::new(1u8, 2u8, 3u8, 4u8);
    assert_eq!(*sdf.regular.read_current(), 1);
    assert_eq!(*sdf.invert.read_current(), 3);
}
