use oidn_wgpu::denoising::Denoising;
use oidn_wgpu::denoising::DenoisingStep;
use oidn_wgpu::engine::BufferRole;
use oidn_wgpu::engine::EngineCall;
use oidn_wgpu::engine::EngineFault;
use oidn_wgpu::engine::EngineOp;
use oidn_wgpu::engine::EngineReply;
use oidn_wgpu::engine::FilterKind;
use oidn_wgpu::engine::ScalarParam;
use oidn_wgpu::error::Error;
use oidn_wgpu::filter::Quality;
use oidn_wgpu::gpu::GpuCall;
use oidn_wgpu::gpu::GpuReply;
use oidn_wgpu::gpu::MapStatus;
use oidn_wgpu::reading::ReadPhase;
use oidn_wgpu::reading::ReadingStep;
use oidn_wgpu::reading::ReadingSurface;
use oidn_wgpu::surface::PixelSurface;
use oidn_wgpu::wgpu_integration::denoise_texture;
use oidn_wgpu::wgpu_integration::denoise_texture_with_aux;
use oidn_wgpu::wgpu_integration::DenoiseOptions;
use oidn_wgpu::wgpu_integration::DenoiseTextureFormat;
use oidn_wgpu::writing::WritePhase;
use oidn_wgpu::writing::WritingStep;
use oidn_wgpu::writing::WritingSurface;

/// A GPU with three surfaces to read and one to write.
struct MockGpu {
    input: Vec<u8>,
    albedo: Vec<u8>,
    normal: Vec<u8>,
    output: Vec<u8>,
    staged: Vec<u8>,
    upload: Vec<u8>,
    pending_polls: usize,
    fail_map: bool,
    lose_map: bool,
    garble_bytes: bool,
    mapped: bool,
    calls: Vec<String>,
    copies: usize,
}

impl MockGpu {
    fn new(input: Vec<u8>) -> MockGpu {
        MockGpu {
            input,
            albedo: Vec::new(),
            normal: Vec::new(),
            output: Vec::new(),
            staged: Vec::new(),
            upload: Vec::new(),
            pending_polls: 2,
            fail_map: false,
            lose_map: false,
            garble_bytes: false,
            mapped: false,
            calls: Vec::new(),
            copies: 0,
        }
    }

    fn answer(&mut self, call: GpuCall) -> GpuReply {
        let mut reply = GpuReply { map: MapStatus::Pending, bytes: Vec::new() };
        match call {
            GpuCall::CreateReadbackBuffer { byte_size } => {
                self.calls.push(format!("create {}", byte_size));
            }
            GpuCall::CopySurfaceToBuffer { surface, row_stride, rows } => {
                self.calls.push(format!("copy {:?} {} {}", surface, row_stride, rows));
                self.copies += 1;
                self.staged = match surface {
                    BufferRole::Color => self.input.clone(),
                    BufferRole::Albedo => self.albedo.clone(),
                    BufferRole::Normal => self.normal.clone(),
                    BufferRole::Output => panic!("the output is not read"),
                };
            }
            GpuCall::MapAsync => {
                self.calls.push(String::from("map"));
            }
            GpuCall::Poll => {
                self.calls.push(String::from("poll"));
                if self.pending_polls > 0 {
                    self.pending_polls -= 1;
                } else if self.fail_map {
                    reply.map = MapStatus::Failed(wgpu::BufferAsyncError);
                } else if self.lose_map {
                    reply.map = MapStatus::Lost;
                } else {
                    self.mapped = true;
                    reply.map = MapStatus::Completed;
                }
            }
            GpuCall::GetMappedBytes => {
                self.calls.push(String::from("bytes"));
                assert!(self.mapped);
                reply.bytes = self.staged.clone();
                if self.garble_bytes {
                    reply.bytes.pop();
                }
            }
            GpuCall::Unmap => {
                self.calls.push(String::from("unmap"));
                assert!(self.mapped);
                self.mapped = false;
            }
            GpuCall::CreateUploadBuffer { contents } => {
                self.calls.push(format!("upload {}", contents.len()));
                self.upload = contents;
            }
            GpuCall::CopyBufferToSurface { row_stride, rows } => {
                self.calls.push(format!("write {} {}", row_stride, rows));
                self.output = self.upload.clone();
            }
        }
        reply
    }
}

/// An engine that hands the colour image back as the output, with each word
/// changed by `change`, and counts what it hands out and gets back.
struct MockEngine {
    next_handle: usize,
    acquired: usize,
    released: usize,
    ops: Vec<EngineOp>,
    uploaded: Vec<(BufferRole, Vec<u32>)>,
    fail_allocation: Option<BufferRole>,
    error_after_execute: bool,
    short_download: bool,
    change: u32,
}

impl MockEngine {
    fn new() -> MockEngine {
        MockEngine {
            next_handle: 0,
            acquired: 0,
            released: 0,
            ops: Vec::new(),
            uploaded: Vec::new(),
            fail_allocation: None,
            error_after_execute: false,
            short_download: false,
            change: 0,
        }
    }

    fn answer(&mut self, call: EngineCall, stage: &Denoising) -> (EngineReply, Vec<u32>) {
        self.ops.push(call.op);
        let mut reply = EngineReply { handle: 0, error: None };
        let mut words = Vec::new();
        match call.op {
            EngineOp::CreateFilter { .. } => {
                self.next_handle += 1;
                self.acquired += 1;
                reply.handle = self.next_handle;
            }
            EngineOp::Allocate { role, .. } => {
                if self.fail_allocation != Some(role) {
                    self.next_handle += 1;
                    self.acquired += 1;
                    reply.handle = self.next_handle;
                }
            }
            EngineOp::Upload { role, image, byte_size } => {
                assert_eq!(role, image);
                let data = stage.upload_words(image).expect("words to upload").clone();
                assert_eq!(data.len() * 4, byte_size);
                self.uploaded.push((role, data));
            }
            EngineOp::Execute => {
                if self.error_after_execute {
                    reply.error = Some(EngineFault { code: 2, message: String::from("bad argument") });
                }
            }
            EngineOp::Download { .. } => {
                let color = &self.uploaded.iter().find(|(role, _)| *role == BufferRole::Color).expect("colour").1;
                words = color.iter().map(|w| w ^ self.change).collect();
                if self.short_download {
                    words.pop();
                }
            }
            EngineOp::Release { .. } => {
                self.released += 1;
            }
            _ => {}
        }
        (reply, words)
    }
}

fn sized(width: u32, height: u32, encoding: DenoiseTextureFormat) -> PixelSurface {
    PixelSurface { width, height, layers: 1, encoding: Some(encoding) }
}

fn options() -> DenoiseOptions {
    DenoiseOptions { quality: Quality::Fast, hdr: true, srgb: false, input_scale: None }
}

/// A padded surface of 32-bit pixels, all of one value.
fn padded_single(width: usize, height: usize, pixel: [f32; 4]) -> Vec<u8> {
    let stride = (width * 16).div_ceil(256) * 256;
    let mut bytes = vec![0xeeu8; stride * height];
    for row in 0..height {
        for col in 0..width {
            for (c, value) in pixel.iter().enumerate() {
                let at = row * stride + col * 16 + c * 4;
                bytes[at..at + 4].copy_from_slice(&value.to_le_bytes());
            }
        }
    }
    bytes
}

fn padded_half(width: usize, height: usize, pixel: [f32; 4]) -> Vec<u8> {
    let stride = (width * 8).div_ceil(256) * 256;
    let mut bytes = vec![0xeeu8; stride * height];
    for row in 0..height {
        for col in 0..width {
            for (c, value) in pixel.iter().enumerate() {
                let at = row * stride + col * 8 + c * 2;
                bytes[at..at + 2].copy_from_slice(&half::f16::from_f32(*value).to_bits().to_le_bytes());
            }
        }
    }
    bytes
}

fn read(reading: ReadingSurface, first: GpuCall, gpu: &mut MockGpu) -> Result<(Denoising, EngineCall), Error> {
    let mut reading = reading;
    let mut call = first;
    for _ in 0..100 {
        let reply = gpu.answer(call);
        match reading.step(reply) {
            ReadingStep::Continue(next, following) => {
                reading = next;
                call = following;
            }
            ReadingStep::Denoise(denoising, first) => return Ok((denoising, first)),
            ReadingStep::Failed(e) => return Err(e),
        }
    }
    panic!("the reading does not end");
}

fn denoise(stage: Denoising, first: EngineCall, engine: &mut MockEngine) -> Result<(WritingSurface, GpuCall), Error> {
    let mut stage = stage;
    let mut call = first;
    for _ in 0..100 {
        let (reply, words) = engine.answer(call, &stage);
        match stage.step(reply, words) {
            DenoisingStep::Continue(next, following) => {
                stage = next;
                call = following;
            }
            DenoisingStep::Write(writing, first) => return Ok((writing, first)),
            DenoisingStep::Failed(e) => return Err(e),
        }
    }
    panic!("the run does not end");
}

fn write(writing: WritingSurface, first: GpuCall, gpu: &mut MockGpu) {
    let mut writing = writing;
    let mut call = first;
    for _ in 0..10 {
        let reply = gpu.answer(call);
        match writing.step(reply) {
            WritingStep::Continue(next, following) => {
                writing = next;
                call = following;
            }
            WritingStep::Done => return,
        }
    }
    panic!("the writing does not end");
}

fn whole_call(
    input: &PixelSurface,
    output: &PixelSurface,
    format: DenoiseTextureFormat,
    gpu: &mut MockGpu,
    engine: &mut MockEngine,
) -> Result<(), Error> {
    let (reading, call) = denoise_texture(input, output, format, &options())?;
    let (stage, call) = read(reading, call, gpu)?;
    let (writing, call) = denoise(stage, call, engine)?;
    write(writing, call, gpu);
    Ok(())
}

#[test]
fn two_by_two_surface_keeps_its_alpha() {
    let input = sized(2, 2, DenoiseTextureFormat::Rgba32Float);
    let mut gpu = MockGpu::new(padded_single(2, 2, [0.5, 0.5, 0.5, 1.0]));
    let mut engine = MockEngine::new();
    engine.change = 0x0010_0000;
    whole_call(&input, &input, DenoiseTextureFormat::Rgba32Float, &mut gpu, &mut engine).expect("denoise");

    // the output has the size and the encoding of the input
    assert_eq!(gpu.output.len(), 2 * 256);
    assert_eq!(gpu.calls.last().unwrap(), "write 256 2");
    for row in 0..2 {
        for col in 0..2 {
            let at = row * 256 + col * 16;
            let channel = |c: usize| f32::from_le_bytes(gpu.output[at + c * 4..at + c * 4 + 4].try_into().unwrap());
            assert_eq!(channel(3), 1.0);
            assert_eq!(channel(0).to_bits(), 0.5f32.to_bits() ^ 0x0010_0000);
            assert_eq!(channel(1).to_bits(), 0.5f32.to_bits() ^ 0x0010_0000);
            assert_eq!(channel(2).to_bits(), 0.5f32.to_bits() ^ 0x0010_0000);
        }
        // the padding of a row is zero
        assert!(gpu.output[row * 256 + 32..(row + 1) * 256].iter().all(|&b| b == 0));
    }
    assert!(engine.ops.contains(&EngineOp::SetInt { param: ScalarParam::Quality, value: 4 }));
    assert!(engine.ops.contains(&EngineOp::SetBool { param: ScalarParam::Hdr, value: true }));
    assert_eq!(engine.ops[0], EngineOp::CreateFilter { kind: FilterKind::Rt });
    assert_eq!(engine.acquired, 3);
    assert_eq!(engine.released, 3);
}

#[test]
fn sixteen_bit_surface_keeps_its_alpha() {
    let input = sized(3, 2, DenoiseTextureFormat::Rgba16Float);
    let mut gpu = MockGpu::new(padded_half(3, 2, [0.25, 2.0, -1.0, 0.75]));
    let mut engine = MockEngine::new();
    whole_call(&input, &input, DenoiseTextureFormat::Rgba16Float, &mut gpu, &mut engine).expect("denoise");
    assert_eq!(gpu.output.len(), 2 * 256);
    for row in 0..2 {
        for col in 0..3 {
            let at = row * 256 + col * 8;
            let channel = |c: usize| {
                half::f16::from_bits(u16::from_le_bytes(gpu.output[at + c * 2..at + c * 2 + 2].try_into().unwrap()))
                    .to_f32()
            };
            assert_eq!([channel(0), channel(1), channel(2), channel(3)], [0.25, 2.0, -1.0, 0.75]);
        }
    }
    assert_eq!(engine.uploaded.len(), 1);
    assert_eq!(engine.uploaded[0].1.len(), 3 * 2 * 3);
    assert!(engine.uploaded[0].1.iter().all(|&w| w < 0x1_0000));
}

#[test]
fn calls_to_read_one_surface_come_in_order() {
    let input = sized(2, 2, DenoiseTextureFormat::Rgba32Float);
    let mut gpu = MockGpu::new(padded_single(2, 2, [0.5, 0.5, 0.5, 1.0]));
    let mut engine = MockEngine::new();
    whole_call(&input, &input, DenoiseTextureFormat::Rgba32Float, &mut gpu, &mut engine).expect("denoise");
    assert_eq!(
        gpu.calls,
        vec!["create 512", "copy Color 256 2", "map", "poll", "poll", "poll", "bytes", "unmap", "upload 512", "write 256 2"]
    );
}

#[test]
fn mismatched_sizes_start_nothing() {
    let input = sized(64, 64, DenoiseTextureFormat::Rgba32Float);
    let output = sized(64, 32, DenoiseTextureFormat::Rgba32Float);
    let mut gpu = MockGpu::new(Vec::new());
    let mut engine = MockEngine::new();
    let outcome = whole_call(&input, &output, DenoiseTextureFormat::Rgba32Float, &mut gpu, &mut engine);
    assert!(matches!(outcome, Err(Error::InvalidDimensions)));
    assert_eq!(engine.acquired, 0);
    assert_eq!(engine.released, 0);
    assert!(engine.ops.is_empty());
    assert!(gpu.calls.is_empty());
}

#[test]
fn mismatched_encodings_start_nothing() {
    let input = sized(2, 2, DenoiseTextureFormat::Rgba32Float);
    let output = sized(2, 2, DenoiseTextureFormat::Rgba16Float);
    let mut gpu = MockGpu::new(padded_single(2, 2, [0.5, 0.5, 0.5, 1.0]));
    let mut engine = MockEngine::new();
    let outcome = whole_call(&input, &output, DenoiseTextureFormat::Rgba32Float, &mut gpu, &mut engine);
    assert!(matches!(outcome, Err(Error::UnsupportedFormat)));
    assert_eq!(gpu.copies, 0);
    assert!(gpu.calls.is_empty());
    assert!(engine.ops.is_empty());
}

#[test]
fn surfaces_too_large_start_nothing() {
    let huge = sized(u32::MAX, 1, DenoiseTextureFormat::Rgba32Float);
    assert!(matches!(
        denoise_texture(&huge, &huge, DenoiseTextureFormat::Rgba32Float, &options()),
        Err(Error::InvalidDimensions)
    ));
    // 12 bytes for each pixel of the engine's image are more than can be counted
    let tall = sized(0x1fff_ffe0, u32::MAX, DenoiseTextureFormat::Rgba16Float);
    assert!(matches!(
        denoise_texture(&tall, &tall, DenoiseTextureFormat::Rgba16Float, &options()),
        Err(Error::InvalidDimensions)
    ));
    let widest = sized(0x0fff_fff0, 1, DenoiseTextureFormat::Rgba32Float);
    assert!(denoise_texture(&widest, &widest, DenoiseTextureFormat::Rgba32Float, &options()).is_ok());
}

#[test]
fn failed_mapping_ends_the_call_before_the_engine_is_asked() {
    let input = sized(2, 2, DenoiseTextureFormat::Rgba32Float);
    let mut gpu = MockGpu::new(padded_single(2, 2, [0.5, 0.5, 0.5, 1.0]));
    gpu.fail_map = true;
    let mut engine = MockEngine::new();
    let outcome = whole_call(&input, &input, DenoiseTextureFormat::Rgba32Float, &mut gpu, &mut engine);
    assert!(matches!(outcome, Err(Error::BufferMapFailed(_))));
    assert_eq!(engine.acquired, 0);
    assert_eq!(engine.released, 0);
    assert!(engine.ops.is_empty());
    assert_eq!(gpu.calls, vec!["create 512", "copy Color 256 2", "map", "poll", "poll", "poll"]);
}

#[test]
fn lost_mapping_ends_the_call_as_a_failed_one() {
    let input = sized(2, 2, DenoiseTextureFormat::Rgba32Float);
    let mut gpu = MockGpu::new(padded_single(2, 2, [0.5, 0.5, 0.5, 1.0]));
    gpu.lose_map = true;
    gpu.pending_polls = 0;
    let mut engine = MockEngine::new();
    let outcome = whole_call(&input, &input, DenoiseTextureFormat::Rgba32Float, &mut gpu, &mut engine);
    assert!(matches!(outcome, Err(Error::BufferMapFailed(wgpu::BufferAsyncError))));
    assert!(engine.ops.is_empty());
    assert_eq!(gpu.calls, vec!["create 512", "copy Color 256 2", "map", "poll"]);
}

#[test]
fn mapped_bytes_of_the_wrong_length_end_the_call_after_unmapping() {
    let input = sized(2, 2, DenoiseTextureFormat::Rgba32Float);
    let mut gpu = MockGpu::new(padded_single(2, 2, [0.5, 0.5, 0.5, 1.0]));
    gpu.garble_bytes = true;
    let mut engine = MockEngine::new();
    let outcome = whole_call(&input, &input, DenoiseTextureFormat::Rgba32Float, &mut gpu, &mut engine);
    assert!(matches!(outcome, Err(Error::InvalidDimensions)));
    assert_eq!(gpu.calls.last().unwrap(), "unmap");
    assert!(!gpu.mapped);
    assert!(engine.ops.is_empty());
}

#[test]
fn failed_allocation_ends_the_call_with_nothing_held() {
    let input = sized(2, 2, DenoiseTextureFormat::Rgba32Float);
    let mut gpu = MockGpu::new(padded_single(2, 2, [0.5, 0.5, 0.5, 1.0]));
    let mut engine = MockEngine::new();
    engine.fail_allocation = Some(BufferRole::Output);
    let outcome = whole_call(&input, &input, DenoiseTextureFormat::Rgba32Float, &mut gpu, &mut engine);
    assert!(matches!(outcome, Err(Error::OutOfMemory)));
    assert_eq!(engine.acquired, 2);
    assert_eq!(engine.released, 2);
    assert!(gpu.output.is_empty());
    assert!(!gpu.calls.iter().any(|call| call.starts_with("upload") || call.starts_with("write")));
}

#[test]
fn engine_error_after_execute_ends_the_call_with_nothing_held() {
    let input = sized(2, 2, DenoiseTextureFormat::Rgba32Float);
    let mut gpu = MockGpu::new(padded_single(2, 2, [0.5, 0.5, 0.5, 1.0]));
    let mut engine = MockEngine::new();
    engine.error_after_execute = true;
    let outcome = whole_call(&input, &input, DenoiseTextureFormat::Rgba32Float, &mut gpu, &mut engine);
    match outcome {
        Err(Error::OidnError { code, message }) => {
            assert_eq!(code, 2);
            assert_eq!(message, "bad argument");
        }
        other => panic!("unexpected {:?}", other),
    }
    assert_eq!(engine.acquired, 3);
    assert_eq!(engine.released, 3);
    assert!(gpu.output.is_empty());
    assert!(!engine.ops.iter().any(|op| matches!(op, EngineOp::Synchronize | EngineOp::Download { .. })));
}

#[test]
fn download_of_the_wrong_length_ends_the_call_with_nothing_held() {
    let input = sized(2, 2, DenoiseTextureFormat::Rgba32Float);
    let mut gpu = MockGpu::new(padded_single(2, 2, [0.5, 0.5, 0.5, 1.0]));
    let mut engine = MockEngine::new();
    engine.short_download = true;
    let outcome = whole_call(&input, &input, DenoiseTextureFormat::Rgba32Float, &mut gpu, &mut engine);
    assert!(matches!(outcome, Err(Error::InvalidDimensions)));
    assert_eq!(engine.acquired, 3);
    assert_eq!(engine.released, 3);
    assert!(gpu.output.is_empty());
}

#[test]
fn auxiliary_surfaces_are_read_and_uploaded() {
    let input = sized(2, 2, DenoiseTextureFormat::Rgba32Float);
    let mut gpu = MockGpu::new(padded_single(2, 2, [0.5, 0.5, 0.5, 1.0]));
    gpu.albedo = padded_single(2, 2, [0.1, 0.2, 0.3, 0.0]);
    gpu.normal = padded_single(2, 2, [0.0, 1.0, 0.0, 0.0]);
    gpu.pending_polls = 0;
    let mut engine = MockEngine::new();
    let (reading, call) =
        denoise_texture_with_aux(&input, &input, DenoiseTextureFormat::Rgba32Float, &options(), Some(&input), Some(&input))
            .expect("start");
    let (stage, call) = read(reading, call, &mut gpu).expect("read");
    assert_eq!(gpu.copies, 3);
    assert_eq!(
        gpu.calls,
        vec![
            "create 512", "copy Color 256 2", "map", "poll", "bytes", "unmap",
            "create 512", "copy Albedo 256 2", "map", "poll", "bytes", "unmap",
            "create 512", "copy Normal 256 2", "map", "poll", "bytes", "unmap",
        ]
    );
    let (writing, call) = denoise(stage, call, &mut engine).expect("denoise");
    write(writing, call, &mut gpu);
    let uploaded: Vec<BufferRole> = engine.uploaded.iter().map(|(role, _)| *role).collect();
    assert_eq!(uploaded, vec![BufferRole::Color, BufferRole::Albedo, BufferRole::Normal]);
    let albedo: Vec<u32> = [0.1f32, 0.2, 0.3].iter().cycle().take(12).map(|v| v.to_bits()).collect();
    assert_eq!(engine.uploaded[1].1, albedo);
    let normal: Vec<u32> = [0.0f32, 1.0, 0.0].iter().cycle().take(12).map(|v| v.to_bits()).collect();
    assert_eq!(engine.uploaded[2].1, normal);
    assert_eq!(engine.acquired, 5);
    assert_eq!(engine.released, 5);
    assert_eq!(gpu.output, {
        let mut expected = padded_single(2, 2, [0.5, 0.5, 0.5, 1.0]);
        for row in 0..2 {
            for b in &mut expected[row * 256 + 32..(row + 1) * 256] {
                *b = 0;
            }
        }
        expected
    });
}

#[test]
fn one_auxiliary_surface_alone_is_in_order() {
    let input = sized(2, 2, DenoiseTextureFormat::Rgba32Float);
    let mut gpu = MockGpu::new(padded_single(2, 2, [0.5, 0.5, 0.5, 1.0]));
    gpu.normal = padded_single(2, 2, [0.0, 1.0, 0.0, 0.0]);
    let (reading, call) =
        denoise_texture_with_aux(&input, &input, DenoiseTextureFormat::Rgba32Float, &options(), None, Some(&input))
            .expect("start");
    let (stage, _) = read(reading, call, &mut gpu).expect("read");
    assert_eq!(gpu.copies, 2);
    assert!(gpu.calls.contains(&String::from("copy Normal 256 2")));
    assert!(stage.upload_words(BufferRole::Albedo).unwrap().is_empty());
    assert_eq!(stage.upload_words(BufferRole::Normal).unwrap().len(), 12);
    assert!(stage.upload_words(BufferRole::Output).is_none());
}

#[test]
fn auxiliary_surface_of_another_size_starts_nothing() {
    let input = sized(2, 2, DenoiseTextureFormat::Rgba32Float);
    let other = sized(2, 3, DenoiseTextureFormat::Rgba32Float);
    for (albedo, normal) in [(Some(&other), None), (None, Some(&other)), (Some(&input), Some(&other))] {
        assert!(matches!(
            denoise_texture_with_aux(&input, &input, DenoiseTextureFormat::Rgba32Float, &options(), albedo, normal),
            Err(Error::InvalidDimensions)
        ));
    }
}

#[test]
fn reading_starts_with_the_input() {
    let input = sized(17, 3, DenoiseTextureFormat::Rgba32Float);
    let (reading, call) =
        denoise_texture(&input, &input, DenoiseTextureFormat::Rgba32Float, &options()).expect("start");
    assert!(matches!(call, GpuCall::CreateReadbackBuffer { byte_size: 1536 }));
    assert_eq!(reading.surface(), BufferRole::Color);
    assert_eq!(reading.phase(), ReadPhase::Creating);
    let job = reading.job();
    assert_eq!(job.layout.padded_bytes_per_row(), 512);
    assert_eq!(job.layout.unpadded_bytes_per_row(), 272);
    assert_eq!(job.layout.alignment(), wgpu::COPY_BYTES_PER_ROW_ALIGNMENT);
    assert_eq!((job.width, job.height), (17, 3));
    assert!(!job.albedo && !job.normal);
}

#[test]
fn default_options_are_high_dynamic_range() {
    let options = DenoiseOptions::default();
    assert_eq!(options.quality, Quality::Default);
    assert!(options.hdr);
    assert!(!options.srgb);
    assert!(options.input_scale.is_none());
}

#[test]
fn writing_creates_the_buffer_then_copies_it() {
    let writing = WritingSurface { row_stride: 512, rows: 7, phase: WritePhase::Creating };
    let reply = || GpuReply { map: MapStatus::Pending, bytes: Vec::new() };
    let writing = match writing.step(reply()) {
        WritingStep::Continue(next, GpuCall::CopyBufferToSurface { row_stride: 512, rows: 7 }) => next,
        other => panic!("unexpected {:?}", other),
    };
    assert_eq!(writing.phase, WritePhase::Copying);
    assert!(matches!(writing.step(reply()), WritingStep::Done));
}
