use oidn_wgpu::error::Error;
use oidn_wgpu::surface::validate;
use oidn_wgpu::surface::PixelSurface;
use oidn_wgpu::wgpu_integration::DenoiseTextureFormat;

fn surface(width: u32, height: u32, encoding: DenoiseTextureFormat) -> PixelSurface {
    PixelSurface { width, height, layers: 1, encoding: Some(encoding) }
}

#[test]
fn surfaces_of_one_size_and_encoding_are_valid() {
    let a = surface(64, 64, DenoiseTextureFormat::Rgba32Float);
    assert!(validate(&a, &a, &[], DenoiseTextureFormat::Rgba32Float).is_ok());
    assert!(validate(&a, &a, &[a, a], DenoiseTextureFormat::Rgba32Float).is_ok());
    let b = surface(3, 5, DenoiseTextureFormat::Rgba16Float);
    assert!(validate(&b, &b, &[b], DenoiseTextureFormat::Rgba16Float).is_ok());
}

#[test]
fn surfaces_of_different_size_are_rejected() {
    let input = surface(64, 64, DenoiseTextureFormat::Rgba32Float);
    let output = surface(64, 32, DenoiseTextureFormat::Rgba32Float);
    assert!(matches!(
        validate(&input, &output, &[], DenoiseTextureFormat::Rgba32Float),
        Err(Error::InvalidDimensions)
    ));
    let output = surface(32, 64, DenoiseTextureFormat::Rgba32Float);
    assert!(matches!(
        validate(&input, &output, &[], DenoiseTextureFormat::Rgba32Float),
        Err(Error::InvalidDimensions)
    ));
}

#[test]
fn auxiliary_surface_of_different_size_is_rejected() {
    let input = surface(64, 64, DenoiseTextureFormat::Rgba32Float);
    let small = surface(64, 32, DenoiseTextureFormat::Rgba32Float);
    assert!(matches!(
        validate(&input, &input, &[small], DenoiseTextureFormat::Rgba32Float),
        Err(Error::InvalidDimensions)
    ));
    assert!(matches!(
        validate(&input, &input, &[input, small], DenoiseTextureFormat::Rgba32Float),
        Err(Error::InvalidDimensions)
    ));
}

#[test]
fn surface_with_layers_is_rejected() {
    let flat = surface(8, 8, DenoiseTextureFormat::Rgba32Float);
    let deep = PixelSurface { layers: 2, ..flat };
    let none = PixelSurface { layers: 0, ..flat };
    for (input, output, aux) in [(deep, flat, vec![]), (flat, deep, vec![]), (flat, flat, vec![deep]), (none, none, vec![])] {
        assert!(matches!(
            validate(&input, &output, &aux, DenoiseTextureFormat::Rgba32Float),
            Err(Error::InvalidDimensions)
        ));
    }
}

#[test]
fn empty_surface_is_rejected() {
    let empty = surface(0, 8, DenoiseTextureFormat::Rgba32Float);
    assert!(matches!(
        validate(&empty, &empty, &[], DenoiseTextureFormat::Rgba32Float),
        Err(Error::InvalidDimensions)
    ));
    let empty = surface(8, 0, DenoiseTextureFormat::Rgba32Float);
    assert!(matches!(
        validate(&empty, &empty, &[], DenoiseTextureFormat::Rgba32Float),
        Err(Error::InvalidDimensions)
    ));
}

#[test]
fn mismatched_encoding_is_rejected() {
    let wide = surface(2, 2, DenoiseTextureFormat::Rgba32Float);
    let narrow = surface(2, 2, DenoiseTextureFormat::Rgba16Float);
    assert!(matches!(
        validate(&wide, &narrow, &[], DenoiseTextureFormat::Rgba32Float),
        Err(Error::UnsupportedFormat)
    ));
    assert!(matches!(
        validate(&wide, &narrow, &[], DenoiseTextureFormat::Rgba16Float),
        Err(Error::UnsupportedFormat)
    ));
    assert!(matches!(
        validate(&wide, &wide, &[], DenoiseTextureFormat::Rgba16Float),
        Err(Error::UnsupportedFormat)
    ));
}

#[test]
fn unknown_encoding_is_rejected() {
    let known = surface(2, 2, DenoiseTextureFormat::Rgba32Float);
    let unknown = PixelSurface { encoding: None, ..known };
    assert!(matches!(
        validate(&unknown, &known, &[], DenoiseTextureFormat::Rgba32Float),
        Err(Error::UnsupportedFormat)
    ));
    assert!(matches!(
        validate(&known, &unknown, &[], DenoiseTextureFormat::Rgba32Float),
        Err(Error::UnsupportedFormat)
    ));
}

#[test]
fn size_is_checked_before_encoding() {
    let input = surface(64, 64, DenoiseTextureFormat::Rgba32Float);
    let output = surface(64, 32, DenoiseTextureFormat::Rgba16Float);
    assert!(matches!(
        validate(&input, &output, &[], DenoiseTextureFormat::Rgba32Float),
        Err(Error::InvalidDimensions)
    ));
}

#[test]
fn encoding_of_auxiliary_surfaces_is_not_checked() {
    let wide = surface(2, 2, DenoiseTextureFormat::Rgba32Float);
    let narrow = surface(2, 2, DenoiseTextureFormat::Rgba16Float);
    assert!(validate(&wide, &wide, &[narrow], DenoiseTextureFormat::Rgba32Float).is_ok());
}
