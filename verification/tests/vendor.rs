use resonance::vendor::Vendor;

#[test]
fn detects_common_adapters() {
    assert_eq!(Vendor::detect("NVIDIA GeForce RTX 3060 Ti"), Vendor::Nvidia);
    assert_eq!(Vendor::detect("AMD Radeon RX 7900 XTX"), Vendor::Amd);
    assert_eq!(
        Vendor::detect("Intel(R) Arc(TM) A770 Graphics"),
        Vendor::Intel
    );
    assert_eq!(Vendor::detect("Intel(R) UHD Graphics 630"), Vendor::Intel);
    assert_eq!(
        Vendor::detect("Microsoft Basic Render Driver"),
        Vendor::Unknown
    );
}
