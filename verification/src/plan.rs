//! The plan of a run: the operations that a session makes, in order.
//!
//! A run allocates its buffers, uploads the images, binds the buffers to the
//! filter, sets the parameters, commits, executes, synchronizes, and only
//! then downloads the output. A plan that a session can run uses no buffer
//! before it has allocated it and downloads only right after a
//! synchronization.

use crate::engine::BufferRole;
use crate::engine::EngineOp;
use crate::engine::FilterKind;
use crate::engine::Resource;
use crate::engine::ScalarParam;
use crate::filter::Quality;
use crate::sys::OIDNFormat;
use vstd::prelude::*;

verus! {

/// Whether `plan` allocates a buffer of this role.
pub open spec fn allocates(plan: Seq<EngineOp>, role: BufferRole) -> bool {
    exists|j: int|
        0 <= j < plan.len() && (#[trigger] plan[j]).acquires() == Some(Resource::Buffer(role))
}

/// Whether `op` may come after the operations of `plan`: it is no release,
/// it uses no buffer that `plan` does not allocate, and it downloads only
/// right after a synchronization.
pub open spec fn op_fits(plan: Seq<EngineOp>, op: EngineOp) -> bool {
    &&& !(op is Release)
    &&& op is Download ==> plan.len() > 0 && plan.last() is Synchronize
    &&& forall|role: BufferRole| op.uses() == Some(role) ==> allocates(plan, role)
}

/// Whether a session can run `plan`: each of its operations may come after
/// those before it.
pub open spec fn plan_ok(plan: Seq<EngineOp>) -> bool {
    forall|i: int| 0 <= i < plan.len() ==> op_fits(#[trigger] plan.take(i), plan[i])
}

/// A plan that a session can run stays one when an operation that fits is
/// added, and it goes on allocating what it allocated.
pub proof fn lemma_plan_push(plan: Seq<EngineOp>, op: EngineOp)
    requires
        plan_ok(plan),
        op_fits(plan, op),
    ensures
        plan_ok(plan.push(op)),
        forall|role: BufferRole|
            #[trigger] allocates(plan, role) ==> allocates(plan.push(op), role),
        op.acquires() matches Some(Resource::Buffer(role)) ==> allocates(plan.push(op), role),
{
    let longer = plan.push(op);
    assert forall|i: int| 0 <= i < longer.len() implies op_fits(
        #[trigger] longer.take(i),
        longer[i],
    ) by {
        if i < plan.len() {
            assert(longer.take(i) =~= plan.take(i));
        } else {
            assert(longer.take(i) =~= plan);
        }
    }
    assert forall|role: BufferRole| allocates(plan, role) implies allocates(longer, role) by {
        let j = choose|j: int|
            0 <= j < plan.len() && (#[trigger] plan[j]).acquires() == Some(Resource::Buffer(role));
        assert(longer[j].acquires() == Some(Resource::Buffer(role)));
    }
    if let Some(Resource::Buffer(role)) = op.acquires() {
        assert(longer[plan.len() as int].acquires() == Some(Resource::Buffer(role)));
    }
}

/// What `plan` allocates before an operation, it allocates.
pub proof fn lemma_allocates_take(plan: Seq<EngineOp>, i: int, role: BufferRole)
    requires
        0 <= i <= plan.len(),
        allocates(plan.take(i), role),
    ensures
        exists|j: int|
            0 <= j < i && (#[trigger] plan[j]).acquires() == Some(Resource::Buffer(role)),
{
    let j = choose|j: int|
        0 <= j < plan.take(i).len() && (#[trigger] plan.take(i)[j]).acquires() == Some(
            Resource::Buffer(role),
        );
    assert(plan[j] == plan.take(i)[j]);
}

/// `plan` with `op` added where `cond` holds.
pub open spec fn push_when(plan: Seq<EngineOp>, cond: bool, op: EngineOp) -> Seq<EngineOp> {
    if cond {
        plan.push(op)
    } else {
        plan
    }
}

/// A plan that a session can run stays one when an operation is added that
/// fits where it is added.
pub proof fn lemma_plan_push_when(plan: Seq<EngineOp>, cond: bool, op: EngineOp)
    requires
        plan_ok(plan),
        cond ==> op_fits(plan, op),
    ensures
        plan_ok(push_when(plan, cond, op)),
        forall|role: BufferRole|
            #[trigger] allocates(plan, role) ==> allocates(push_when(plan, cond, op), role),
        cond ==> (op.acquires() matches Some(Resource::Buffer(role)) ==> allocates(
            push_when(plan, cond, op),
            role,
        )),
{
    if cond {
        lemma_plan_push(plan, op);
    }
}

/// The bits of the 32-bit float that is not a number, which as an input
/// scale leaves the choice to the engine.
pub const AUTO_INPUT_SCALE: u32 = 0x7fc0_0000;

/// What one run of the ray tracing filter is asked to do.
#[derive(Clone, Copy, Debug)]
pub struct DenoiseRequest {
    /// Pixels in a row of the image.
    pub width: u32,
    /// Rows of the image.
    pub height: u32,
    /// Trade-off between quality and speed.
    pub quality: Quality,
    /// Whether the image has high dynamic range.
    pub hdr: bool,
    /// Whether the image is sRGB-encoded.
    pub srgb: bool,
    /// Whether the auxiliary images are free of noise.
    pub clean_aux: bool,
    /// The input scale, as the bits of a 32-bit float; `None` leaves the
    /// choice to the engine.
    pub input_scale: Option<u32>,
    /// Whether the run is in place: there is no colour image, and the output
    /// image is the image to denoise.
    pub in_place: bool,
    /// Whether an albedo image comes with the colour image.
    pub albedo: bool,
    /// Whether a normal image comes with the colour image.
    pub normal: bool,
}

/// Bytes of an image of three 32-bit floats per pixel.
pub open spec fn image_bytes(width: u32, height: u32) -> int {
    width * height * 12
}

/// Whether a session can work on an image of this size: it is not empty, and
/// its bytes can be counted.
pub open spec fn image_fits(width: u32, height: u32) -> bool {
    width > 0 && height > 0 && image_bytes(width, height) <= usize::MAX
}

/// `plan` and then the allocation of the buffers of a run: colour and output,
/// and one for each auxiliary image.
pub open spec fn with_buffers(plan: Seq<EngineOp>, size: usize, albedo: bool, normal: bool) -> Seq<
    EngineOp,
> {
    let plan = plan.push(EngineOp::Allocate { role: BufferRole::Color, byte_size: size });
    let plan = plan.push(EngineOp::Allocate { role: BufferRole::Output, byte_size: size });
    let plan = push_when(
        plan,
        albedo,
        EngineOp::Allocate { role: BufferRole::Albedo, byte_size: size },
    );
    push_when(plan, normal, EngineOp::Allocate { role: BufferRole::Normal, byte_size: size })
}

/// The upload of the caller's image of a role into the buffer of that role.
pub open spec fn upload(role: BufferRole, size: usize) -> EngineOp {
    EngineOp::Upload { role, image: role, byte_size: size }
}

/// The upload into the colour buffer: of the caller's colour image, or, in a
/// run in place, of the output image, which then is the image to denoise.
pub open spec fn upload_color(in_place: bool, size: usize) -> EngineOp {
    EngineOp::Upload {
        role: BufferRole::Color,
        image: if in_place {
            BufferRole::Output
        } else {
            BufferRole::Color
        },
        byte_size: size,
    }
}

/// `plan` and then the upload of the images of a run: colour, and each
/// auxiliary image.
pub open spec fn with_uploads(
    plan: Seq<EngineOp>,
    size: usize,
    in_place: bool,
    albedo: bool,
    normal: bool,
) -> Seq<EngineOp> {
    let plan = plan.push(upload_color(in_place, size));
    let plan = push_when(plan, albedo, upload(BufferRole::Albedo, size));
    push_when(plan, normal, upload(BufferRole::Normal, size))
}

/// The binding of the buffer of a role to its image slot, as an image of three
/// 32-bit floats per pixel.
pub open spec fn binding(role: BufferRole, width: u32, height: u32) -> EngineOp {
    EngineOp::BindImage { role, format: OIDNFormat::Float3, width, height }
}

/// `plan` and then the binding of each buffer of a run to its image slot.
pub open spec fn with_bindings(
    plan: Seq<EngineOp>,
    width: u32,
    height: u32,
    albedo: bool,
    normal: bool,
) -> Seq<EngineOp> {
    let plan = plan.push(binding(BufferRole::Color, width, height));
    let plan = plan.push(binding(BufferRole::Output, width, height));
    let plan = push_when(
        plan,
        albedo,
        binding(BufferRole::Albedo, width, height),
    );
    push_when(plan, normal, binding(BufferRole::Normal, width, height))
}

/// `plan` and then what every run ends with: commit, execute, synchronize,
/// and only then the download of the output.
pub open spec fn with_execution(plan: Seq<EngineOp>, size: usize) -> Seq<EngineOp> {
    let plan = plan.push(EngineOp::Commit);
    let plan = plan.push(EngineOp::Execute);
    let plan = plan.push(EngineOp::Synchronize);
    plan.push(EngineOp::Download { role: BufferRole::Output, byte_size: size })
}

impl DenoiseRequest {
    /// The input scale to set: the one asked for, or the engine's choice.
    pub open spec fn input_scale_bits(self) -> u32 {
        match self.input_scale {
            Some(bits) => bits,
            None => AUTO_INPUT_SCALE,
        }
    }

    /// `plan` and then the scalar parameters of the ray tracing filter.
    pub open spec fn with_parameters(self, plan: Seq<EngineOp>) -> Seq<EngineOp> {
        let plan = plan.push(EngineOp::SetBool { param: ScalarParam::Hdr, value: self.hdr });
        let plan = plan.push(EngineOp::SetBool { param: ScalarParam::Srgb, value: self.srgb });
        let plan = plan.push(
            EngineOp::SetBool { param: ScalarParam::CleanAux, value: self.clean_aux },
        );
        let plan = plan.push(
            EngineOp::SetFloat { param: ScalarParam::InputScale, bits: self.input_scale_bits() },
        );
        plan.push(
            EngineOp::SetInt {
                param: ScalarParam::Quality,
                value: self.quality.spec_to_raw().spec_code() as i32,
            },
        )
    }

    /// The operations of a run of the ray tracing filter, in order: create
    /// the filter, where the run is to create it; allocate the buffers;
    /// upload the images; bind the buffers; set the parameters; commit,
    /// execute, synchronize; download the output.
    pub open spec fn plan(self, create_filter: bool) -> Seq<EngineOp> {
        let size = image_bytes(self.width, self.height) as usize;
        let plan = push_when(
            Seq::empty(),
            create_filter,
            EngineOp::CreateFilter { kind: FilterKind::Rt },
        );
        let plan = with_buffers(plan, size, self.albedo, self.normal);
        let plan = with_uploads(plan, size, self.in_place, self.albedo, self.normal);
        let plan = with_bindings(plan, self.width, self.height, self.albedo, self.normal);
        let plan = self.with_parameters(plan);
        with_execution(plan, size)
    }

    /// Setting the parameters keeps a plan one that a session can run.
    pub proof fn lemma_with_parameters(self, plan: Seq<EngineOp>)
        requires
            plan_ok(plan),
            allocates(plan, BufferRole::Output),
        ensures
            plan_ok(self.with_parameters(plan)),
            allocates(self.with_parameters(plan), BufferRole::Output),
            self.with_parameters(plan).len() == plan.len() + 5,
    {
        let o1 = EngineOp::SetBool { param: ScalarParam::Hdr, value: self.hdr };
        let o2 = EngineOp::SetBool { param: ScalarParam::Srgb, value: self.srgb };
        let o3 = EngineOp::SetBool { param: ScalarParam::CleanAux, value: self.clean_aux };
        let o4 = EngineOp::SetFloat {
            param: ScalarParam::InputScale,
            bits: self.input_scale_bits(),
        };
        let o5 = EngineOp::SetInt {
            param: ScalarParam::Quality,
            value: self.quality.spec_to_raw().spec_code() as i32,
        };
        let p1 = plan.push(o1);
        let p2 = p1.push(o2);
        let p3 = p2.push(o3);
        let p4 = p3.push(o4);
        lemma_plan_push(plan, o1);
        lemma_plan_push(p1, o2);
        lemma_plan_push(p2, o3);
        lemma_plan_push(p3, o4);
        lemma_plan_push(p4, o5);
    }

    /// A session can run the plan of any request.
    pub proof fn lemma_plan_ok(self, create_filter: bool)
        ensures
            plan_ok(self.plan(create_filter)),
            9 < self.plan(create_filter).len() <= 22,
    {
        let size = image_bytes(self.width, self.height) as usize;
        let create = EngineOp::CreateFilter { kind: FilterKind::Rt };
        let start = push_when(Seq::empty(), create_filter, create);
        assert(plan_ok(start) && start.len() <= 1) by {
            lemma_plan_push_when(Seq::empty(), create_filter, create);
        }
        let buffers = with_buffers(start, size, self.albedo, self.normal);
        lemma_with_buffers(start, size, self.albedo, self.normal);
        let uploads = with_uploads(buffers, size, self.in_place, self.albedo, self.normal);
        lemma_with_uploads(buffers, size, self.in_place, self.albedo, self.normal);
        let bindings = with_bindings(uploads, self.width, self.height, self.albedo, self.normal);
        lemma_with_bindings(uploads, self.width, self.height, self.albedo, self.normal);
        let parameters = self.with_parameters(bindings);
        self.lemma_with_parameters(bindings);
        lemma_with_execution(parameters, size);
    }
}

/// The operations of a run of the lightmap filter, in order: as those of the
/// ray tracing filter without auxiliary images, with the one parameter of
/// the lightmap filter.
pub open spec fn lightmap_plan(
    width: u32,
    height: u32,
    directional: bool,
    in_place: bool,
    create_filter: bool,
) -> Seq<EngineOp> {
    let size = image_bytes(width, height) as usize;
    let plan = push_when(
        Seq::empty(),
        create_filter,
        EngineOp::CreateFilter { kind: FilterKind::RtLightmap },
    );
    let plan = with_buffers(plan, size, false, false);
    let plan = with_uploads(plan, size, in_place, false, false);
    let plan = with_bindings(plan, width, height, false, false);
    let plan = plan.push(
        EngineOp::SetInt {
            param: ScalarParam::Directional,
            value: if directional {
                1i32
            } else {
                0i32
            },
        },
    );
    with_execution(plan, size)
}

/// A session can run the plan of any run of the lightmap filter.
pub proof fn lemma_lightmap_plan_ok(
    width: u32,
    height: u32,
    directional: bool,
    in_place: bool,
    create_filter: bool,
)
    ensures
        plan_ok(lightmap_plan(width, height, directional, in_place, create_filter)),
        9 < lightmap_plan(width, height, directional, in_place, create_filter).len() <= 11,
{
    let size = image_bytes(width, height) as usize;
    let create = EngineOp::CreateFilter { kind: FilterKind::RtLightmap };
    let start = push_when(Seq::empty(), create_filter, create);
    lemma_plan_push_when(Seq::empty(), create_filter, create);
    lemma_with_buffers(start, size, false, false);
    let buffers = with_buffers(start, size, false, false);
    lemma_with_uploads(buffers, size, in_place, false, false);
    let uploads = with_uploads(buffers, size, in_place, false, false);
    lemma_with_bindings(uploads, width, height, false, false);
    let bindings = with_bindings(uploads, width, height, false, false);
    let set = EngineOp::SetInt {
        param: ScalarParam::Directional,
        value: if directional {
            1i32
        } else {
            0i32
        },
    };
    lemma_plan_push(bindings, set);
    lemma_with_execution(bindings.push(set), size);
}

/// Allocating the buffers of a run keeps a plan one that a session can run,
/// and afterwards the plan allocates each of them.
pub proof fn lemma_with_buffers(plan: Seq<EngineOp>, size: usize, albedo: bool, normal: bool)
    requires
        plan_ok(plan),
    ensures
        plan_ok(with_buffers(plan, size, albedo, normal)),
        allocates(with_buffers(plan, size, albedo, normal), BufferRole::Color),
        allocates(with_buffers(plan, size, albedo, normal), BufferRole::Output),
        albedo ==> allocates(with_buffers(plan, size, albedo, normal), BufferRole::Albedo),
        normal ==> allocates(with_buffers(plan, size, albedo, normal), BufferRole::Normal),
        plan.len() + 2 <= with_buffers(plan, size, albedo, normal).len() <= plan.len() + 4,
{
    let o1 = EngineOp::Allocate { role: BufferRole::Color, byte_size: size };
    let o2 = EngineOp::Allocate { role: BufferRole::Output, byte_size: size };
    let o3 = EngineOp::Allocate { role: BufferRole::Albedo, byte_size: size };
    let o4 = EngineOp::Allocate { role: BufferRole::Normal, byte_size: size };
    lemma_plan_push(plan, o1);
    lemma_plan_push(plan.push(o1), o2);
    lemma_plan_push_when(plan.push(o1).push(o2), albedo, o3);
    lemma_plan_push_when(push_when(plan.push(o1).push(o2), albedo, o3), normal, o4);
}

/// Uploading the images of a run keeps a plan that allocates their buffers
/// one that a session can run.
pub proof fn lemma_with_uploads(
    plan: Seq<EngineOp>,
    size: usize,
    in_place: bool,
    albedo: bool,
    normal: bool,
)
    requires
        plan_ok(plan),
        allocates(plan, BufferRole::Color),
        allocates(plan, BufferRole::Output),
        albedo ==> allocates(plan, BufferRole::Albedo),
        normal ==> allocates(plan, BufferRole::Normal),
    ensures
        plan_ok(with_uploads(plan, size, in_place, albedo, normal)),
        allocates(with_uploads(plan, size, in_place, albedo, normal), BufferRole::Color),
        allocates(with_uploads(plan, size, in_place, albedo, normal), BufferRole::Output),
        albedo ==> allocates(
            with_uploads(plan, size, in_place, albedo, normal),
            BufferRole::Albedo,
        ),
        normal ==> allocates(
            with_uploads(plan, size, in_place, albedo, normal),
            BufferRole::Normal,
        ),
        plan.len() + 1 <= with_uploads(plan, size, in_place, albedo, normal).len() <= plan.len()
            + 3,
{
    let o1 = upload_color(in_place, size);
    let o2 = upload(BufferRole::Albedo, size);
    let o3 = upload(BufferRole::Normal, size);
    lemma_plan_push(plan, o1);
    lemma_plan_push_when(plan.push(o1), albedo, o2);
    lemma_plan_push_when(push_when(plan.push(o1), albedo, o2), normal, o3);
}

/// Binding the buffers of a run keeps a plan that allocates them one that a
/// session can run.
pub proof fn lemma_with_bindings(
    plan: Seq<EngineOp>,
    width: u32,
    height: u32,
    albedo: bool,
    normal: bool,
)
    requires
        plan_ok(plan),
        allocates(plan, BufferRole::Color),
        allocates(plan, BufferRole::Output),
        albedo ==> allocates(plan, BufferRole::Albedo),
        normal ==> allocates(plan, BufferRole::Normal),
    ensures
        plan_ok(with_bindings(plan, width, height, albedo, normal)),
        allocates(with_bindings(plan, width, height, albedo, normal), BufferRole::Output),
        plan.len() + 2 <= with_bindings(plan, width, height, albedo, normal).len() <= plan.len()
            + 4,
{
    let o1 = binding(BufferRole::Color, width, height);
    let o2 = binding(BufferRole::Output, width, height);
    let o3 = binding(BufferRole::Albedo, width, height);
    let o4 = binding(BufferRole::Normal, width, height);
    lemma_plan_push(plan, o1);
    lemma_plan_push(plan.push(o1), o2);
    lemma_plan_push_when(plan.push(o1).push(o2), albedo, o3);
    lemma_plan_push_when(push_when(plan.push(o1).push(o2), albedo, o3), normal, o4);
}

/// Ending with commit, execute, synchronize and download keeps a plan that
/// allocates the output buffer one that a session can run.
pub proof fn lemma_with_execution(plan: Seq<EngineOp>, size: usize)
    requires
        plan_ok(plan),
        allocates(plan, BufferRole::Output),
    ensures
        plan_ok(with_execution(plan, size)),
        with_execution(plan, size).len() == plan.len() + 4,
{
    let o4 = EngineOp::Download { role: BufferRole::Output, byte_size: size };
    lemma_plan_push(plan, EngineOp::Commit);
    lemma_plan_push(plan.push(EngineOp::Commit), EngineOp::Execute);
    lemma_plan_push(plan.push(EngineOp::Commit).push(EngineOp::Execute), EngineOp::Synchronize);
    lemma_plan_push(
        plan.push(EngineOp::Commit).push(EngineOp::Execute).push(EngineOp::Synchronize),
        o4,
    );
}

/// Counts the bytes of an image of three 32-bit floats per pixel.
pub fn image_size(width: u32, height: u32) -> (r: Option<usize>)
    ensures
        r.is_some() <==> image_bytes(width, height) <= usize::MAX,
        r matches Some(size) ==> size == image_bytes(width, height),
{
    assert(0 <= width * height <= 0xffff_ffff * 0xffff_ffff) by (nonlinear_arith)
        requires
            0 <= width <= 0xffff_ffff,
            0 <= height <= 0xffff_ffff,
    ;
    let pixels: u64 = (width as u64) * (height as u64);
    match pixels.checked_mul(12) {
        Some(bytes) => if bytes <= usize::MAX as u64 {
            Some(bytes as usize)
        } else {
            None
        },
        None => None,
    }
}

/// Adds the allocation of the buffers of a run to `plan`.
fn push_buffers(plan: &mut Vec<EngineOp>, size: usize, albedo: bool, normal: bool)
    ensures
        final(plan)@ == with_buffers(old(plan)@, size, albedo, normal),
{
    plan.push(EngineOp::Allocate { role: BufferRole::Color, byte_size: size });
    plan.push(EngineOp::Allocate { role: BufferRole::Output, byte_size: size });
    if albedo {
        plan.push(EngineOp::Allocate { role: BufferRole::Albedo, byte_size: size });
    }
    if normal {
        plan.push(EngineOp::Allocate { role: BufferRole::Normal, byte_size: size });
    }
}

/// Adds the upload of the images of a run to `plan`.
fn push_uploads(plan: &mut Vec<EngineOp>, size: usize, in_place: bool, albedo: bool, normal: bool)
    ensures
        final(plan)@ == with_uploads(old(plan)@, size, in_place, albedo, normal),
{
    let image: BufferRole = if in_place {
        BufferRole::Output
    } else {
        BufferRole::Color
    };
    plan.push(EngineOp::Upload { role: BufferRole::Color, image, byte_size: size });
    if albedo {
        plan.push(
            EngineOp::Upload {
                role: BufferRole::Albedo,
                image: BufferRole::Albedo,
                byte_size: size,
            },
        );
    }
    if normal {
        plan.push(
            EngineOp::Upload {
                role: BufferRole::Normal,
                image: BufferRole::Normal,
                byte_size: size,
            },
        );
    }
}

/// The binding of the buffer of a role to its image slot.
fn bind(role: BufferRole, width: u32, height: u32) -> (r: EngineOp)
    ensures
        r == binding(role, width, height),
{
    EngineOp::BindImage { role, format: OIDNFormat::Float3, width, height }
}

/// Adds the binding of the buffers of a run to `plan`.
fn push_bindings(plan: &mut Vec<EngineOp>, width: u32, height: u32, albedo: bool, normal: bool)
    ensures
        final(plan)@ == with_bindings(old(plan)@, width, height, albedo, normal),
{
    plan.push(bind(BufferRole::Color, width, height));
    plan.push(bind(BufferRole::Output, width, height));
    if albedo {
        plan.push(bind(BufferRole::Albedo, width, height));
    }
    if normal {
        plan.push(bind(BufferRole::Normal, width, height));
    }
}

/// Adds commit, execute, synchronize and the download of the output to
/// `plan`.
fn push_execution(plan: &mut Vec<EngineOp>, size: usize)
    ensures
        final(plan)@ == with_execution(old(plan)@, size),
{
    plan.push(EngineOp::Commit);
    plan.push(EngineOp::Execute);
    plan.push(EngineOp::Synchronize);
    plan.push(EngineOp::Download { role: BufferRole::Output, byte_size: size });
}

/// Makes the plan of a run of the ray tracing filter on an image of `size`
/// bytes.
pub(crate) fn request_plan(
    request: &DenoiseRequest,
    create_filter: bool,
    size: usize,
) -> (plan: Vec<EngineOp>)
    requires
        size == image_bytes(request.width, request.height),
    ensures
        plan@ == request.plan(create_filter),
        plan@.len() > 0,
        plan_ok(plan@),
{
    let mut plan: Vec<EngineOp> = Vec::new();
    if create_filter {
        plan.push(EngineOp::CreateFilter { kind: FilterKind::Rt });
    }
    push_buffers(&mut plan, size, request.albedo, request.normal);
    push_uploads(&mut plan, size, request.in_place, request.albedo, request.normal);
    push_bindings(&mut plan, request.width, request.height, request.albedo, request.normal);
    plan.push(EngineOp::SetBool { param: ScalarParam::Hdr, value: request.hdr });
    plan.push(EngineOp::SetBool { param: ScalarParam::Srgb, value: request.srgb });
    plan.push(EngineOp::SetBool { param: ScalarParam::CleanAux, value: request.clean_aux });
    let bits: u32 = match request.input_scale {
        Some(bits) => bits,
        None => AUTO_INPUT_SCALE,
    };
    plan.push(EngineOp::SetFloat { param: ScalarParam::InputScale, bits });
    plan.push(
        EngineOp::SetInt {
            param: ScalarParam::Quality,
            value: request.quality.to_raw().code() as i32,
        },
    );
    push_execution(&mut plan, size);
    proof {
        request.lemma_plan_ok(create_filter);
    }
    plan
}

/// Makes the plan of a run of the lightmap filter on an image of `size`
/// bytes.
pub(crate) fn lightmap_ops(
    width: u32,
    height: u32,
    directional: bool,
    in_place: bool,
    create_filter: bool,
    size: usize,
) -> (plan: Vec<EngineOp>)
    requires
        size == image_bytes(width, height),
    ensures
        plan@ == lightmap_plan(width, height, directional, in_place, create_filter),
        plan@.len() > 0,
        plan_ok(plan@),
{
    let mut plan: Vec<EngineOp> = Vec::new();
    if create_filter {
        plan.push(EngineOp::CreateFilter { kind: FilterKind::RtLightmap });
    }
    push_buffers(&mut plan, size, false, false);
    push_uploads(&mut plan, size, in_place, false, false);
    push_bindings(&mut plan, width, height, false, false);
    plan.push(
        EngineOp::SetInt {
            param: ScalarParam::Directional,
            value: if directional {
                1
            } else {
                0
            },
        },
    );
    push_execution(&mut plan, size);
    proof {
        lemma_lightmap_plan_ok(width, height, directional, in_place, create_filter);
    }
    plan
}

} // verus!
