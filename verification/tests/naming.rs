use sombra_service::name::service_name;

#[test]
fn the_name_for_zero() {
    assert_eq!(service_name(0), "sombra-windows-service-0");
}

#[test]
fn the_name_for_a_small_draw() {
    assert_eq!(service_name(12345), "sombra-windows-service-12345");
}

#[test]
fn the_name_for_the_largest_draw() {
    assert_eq!(service_name(u64::MAX), "sombra-windows-service-18446744073709551615");
}

#[test]
fn digits_do_not_repeat_spuriously() {
    assert_eq!(service_name(1000), "sombra-windows-service-1000");
    assert_eq!(service_name(909), "sombra-windows-service-909");
}
