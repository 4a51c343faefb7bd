use bevy::render::render_resource::TextureViewId;
use std::num::NonZeroU32;
use win_sdf_ui::bind_group_cache::BindGroupCache;

fn view(n: u32) -> TextureViewId {
    TextureViewId::from(NonZeroU32::new(n).unwrap())
}

#[test]
fn empty_cache_holds_nothing() {
    let cache: BindGroupCache<&str> = BindGroupCache::new();
    assert!(!cache.holds(view(1)));
    assert!(cache.lookup(view(1)).is_none());
}

#[test]
fn lookup_after_store() {
    let mut cache: BindGroupCache<&str> = BindGroupCache::default();
    assert_eq!(*cache.store(view(7), "group"), "group");
    assert!(cache.holds(view(7)));
    assert_eq!(cache.lookup(view(7)), Some(&"group"));
    assert!(cache.lookup(view(8)).is_none());
    assert!(!cache.holds(view(8)));
}

#[test]
fn store_replaces_the_entry() {
    let mut cache: BindGroupCache<u32> = BindGroupCache::new();
    cache.store(view(1), 10);
    cache.store(view(2), 20);
    assert!(cache.lookup(view(1)).is_none());
    assert_eq!(cache.lookup(view(2)), Some(&20));
    cache.store(view(2), 30);
    assert_eq!(cache.lookup(view(2)), Some(&30));
}

#[test]
fn fresh_texture_views_miss_the_cache() {
    let mut cache: BindGroupCache<u8> = BindGroupCache::new();
    let first = TextureViewId::new();
    let second = TextureViewId::new();
    cache.store(first, 1);
    assert!(cache.holds(first));
    assert!(!cache.holds(second));
}
