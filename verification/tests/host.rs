use sdkwork_shop::host::ROUTE_CRATE_COUNT;
use sdkwork_shop::{assembly_route_count, default_seed_locale, default_seed_profile};

#[test]
fn seed_defaults() {
    assert_eq!(default_seed_locale(), "zh-CN");
    assert_eq!(default_seed_profile(), "standard");
}

#[test]
fn assembly_counts_its_route_crates() {
    assert_eq!(assembly_route_count(), ROUTE_CRATE_COUNT);
    assert_eq!(assembly_route_count(), 2);
}
