use arriva::stops::Stop;

#[test]
fn stops_compare_by_every_field() {
    let a = Stop::new(5274, "Estacion (A CORUNA)".to_string(), "Estacion".to_string(), 516, Some(43.3531f64.to_bits()), Some((-8.4053f64).to_bits()), None, None);
    let b = a.clone();
    assert_eq!(a, b);
    assert_eq!(a.get_parada(), 5274);
    assert_eq!(a.get_nombre(), "Estacion (A CORUNA)");
    let mut c = a.clone();
    c.latitud = Some(0.0f64.to_bits());
    assert_ne!(a, c);
}
