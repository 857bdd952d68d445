//! The stages of the pipeline: their order, the file each one reads and
//! writes, and the exact command line of each external tool.

use vstd::prelude::*;
use crate::command::{CommandModel, CommandSpec, InputRoute, OutputRoute};
use crate::exposure::FisheyeGeometry;
use crate::image_cache::Tool;
use crate::pipeline::PipelineError;
use crate::text::{
    concat, decimal, decimal_text, join_path, joined, name_start,
};

verus! {

/// Paths and programs that every stage uses.
#[derive(Debug, Clone)]
pub struct ConfigSettings {
    /// Directory of the Radiance programs.
    pub radiance_path: String,
    /// The HDR merging program.
    pub hdrgen: Tool,
    /// The raw converter.
    pub dcraw_emu: Tool,
    /// Where the final images go.
    pub output_path: String,
    /// Where the intermediate files go.
    pub temp_path: String,
    /// The program search path of the environment, if it has one.
    pub search_path: Option<String>,
    /// The separator between entries of a program search path.
    pub list_separator: String,
    /// The separator between components of a path.
    pub dir_separator: String,
}

/// Relies on `std::path::MAIN_SEPARATOR`: the platform's path separator,
/// `\` on Windows and `/` elsewhere.
#[verifier::external_body]
fn main_separator() -> (c: char)
    ensures
        c == '/' || c == '\\',
{
    std::path::MAIN_SEPARATOR
}

/// The separator between entries of a program search path on this
/// platform: `;` where paths are written with `\`, `:` elsewhere.
pub fn path_separator() -> (r: &'static str)
    ensures
        r@ == ";"@ || r@ == ":"@,
{
    if main_separator() == '\\' {
        ";"
    } else {
        ":"
    }
}

/// The program `binary_name`: the one bundled with the application when no
/// directory is configured, else the one in the configured directory.
pub fn resolve_program(configured: &str, binary_name: &str, bundled: &Tool) -> (r: Tool)
    ensures
        configured@.len() == 0 ==> r.program@ == bundled.program@ && opt_tool_dir(r) == opt_tool_dir(*bundled),
        configured@.len() > 0 ==> r.program@ == joined(configured@, binary_name@) && r.working_dir is None,
{
    if configured.unicode_len() == 0 {
        Tool {
            program: bundled.program.clone(),
            working_dir: match &bundled.working_dir {
                Some(d) => Some(d.clone()),
                None => None,
            },
        }
    } else {
        Tool { program: join_path(configured, binary_name), working_dir: None }
    }
}

/// The view of a tool's working directory.
pub open spec fn opt_tool_dir(t: Tool) -> Option<Seq<char>> {
    match t.working_dir {
        Some(d) => Some(d@),
        None => None,
    }
}

impl ConfigSettings {
    /// The settings of a run writing into `output_path`, whose temporary
    /// directory is `output_path/tmp`.
    pub fn new(
        radiance_path: &str,
        hdrgen: Tool,
        dcraw_emu: Tool,
        output_path: &str,
        search_path: Option<String>,
    ) -> (r: Self)
        ensures
            r.radiance_path@ == radiance_path@,
            r.hdrgen == hdrgen,
            r.dcraw_emu == dcraw_emu,
            r.output_path@ == output_path@,
            r.temp_path@ == joined(output_path@, "tmp"@),
            r.search_path == search_path,
            r.list_separator@ == ";"@ || r.list_separator@ == ":"@,
            r.dir_separator@ == "/"@ || r.dir_separator@ == "\\"@,
    {
        let dir_separator = if main_separator() == '\\' {
            String::from_str("\\")
        } else {
            String::from_str("/")
        };
        ConfigSettings {
            radiance_path: String::from_str(radiance_path),
            hdrgen,
            dcraw_emu,
            output_path: String::from_str(output_path),
            temp_path: join_path(output_path, "tmp"),
            search_path,
            list_separator: String::from_str(path_separator()),
            dir_separator,
        }
    }
}

/// Arguments of the false-color luminance rendering.
#[derive(Debug, Clone)]
pub struct LuminanceArgs {
    pub scale_limit: String,
    pub scale_label: String,
    pub scale_levels: String,
    pub legend_dimensions: String,
}

/// What the caller chose for one scene. An empty calibration path
/// disables its stage.
#[derive(Debug, Clone)]
pub struct SceneParams {
    pub response_function: String,
    pub fisheye_correction_cal: String,
    pub vignetting_correction_cal: String,
    pub photometric_adjustment_cal: String,
    pub neutral_density_cal: String,
    pub geometry: FisheyeGeometry,
    pub xdim: u32,
    pub ydim: u32,
    pub vertical_angle: u32,
    pub horizontal_angle: u32,
    pub luminance: LuminanceArgs,
    pub filter_images: bool,
}

/// One stage of the pipeline.
#[derive(Debug, Clone, Copy, PartialEq, Eq, Structural)]
pub enum Stage {
    MergeExposures,
    NullifyExposure,
    Crop,
    Resize,
    ProjectionAdjustment,
    VignettingCorrection,
    NeutralDensity,
    PhotometricAdjustment,
    Evalglare,
    HeaderEditing,
    Falsecolor,
}

impl Stage {
    /// The identifier under which the stage is reported.
    pub fn id(&self) -> (r: &'static str)
        ensures
            r@ == stage_id(*self),
    {
        match self {
            Stage::MergeExposures => "merge_exposures",
            Stage::NullifyExposure => "nullify_exposure",
            Stage::Crop => "crop",
            Stage::Resize => "resize",
            Stage::ProjectionAdjustment => "projection_adjustment",
            Stage::VignettingCorrection => "vignetting_correction",
            Stage::NeutralDensity => "neutral_density",
            Stage::PhotometricAdjustment => "photometric_adjustment",
            Stage::Evalglare => "evalglare",
            Stage::HeaderEditing => "header_editing",
            Stage::Falsecolor => "falsecolor",
        }
    }

    /// The human-readable description of the stage.
    pub fn label(&self) -> (r: &'static str)
        ensures
            r@ == stage_label(*self),
    {
        match self {
            Stage::MergeExposures => "Merging exposures",
            Stage::NullifyExposure => "Normalizing exposure",
            Stage::Crop => "Cropping HDR image",
            Stage::Resize => "Resizing HDR image",
            Stage::ProjectionAdjustment => "Applying fisheye correction",
            Stage::VignettingCorrection => "Applying vignetting correction",
            Stage::NeutralDensity => "Applying neutral density correction",
            Stage::PhotometricAdjustment => "Applying photometric adjustment",
            Stage::Evalglare => "Evaluating glare",
            Stage::HeaderEditing => "Updating HDR header",
            Stage::Falsecolor => "Generating luminance map",
        }
    }
}

/// The identifier under which a stage is reported.
pub open spec fn stage_id(s: Stage) -> Seq<char> {
    match s {
        Stage::MergeExposures => "merge_exposures"@,
        Stage::NullifyExposure => "nullify_exposure"@,
        Stage::Crop => "crop"@,
        Stage::Resize => "resize"@,
        Stage::ProjectionAdjustment => "projection_adjustment"@,
        Stage::VignettingCorrection => "vignetting_correction"@,
        Stage::NeutralDensity => "neutral_density"@,
        Stage::PhotometricAdjustment => "photometric_adjustment"@,
        Stage::Evalglare => "evalglare"@,
        Stage::HeaderEditing => "header_editing"@,
        Stage::Falsecolor => "falsecolor"@,
    }
}

/// The human-readable description of a stage.
pub open spec fn stage_label(s: Stage) -> Seq<char> {
    match s {
        Stage::MergeExposures => "Merging exposures"@,
        Stage::NullifyExposure => "Normalizing exposure"@,
        Stage::Crop => "Cropping HDR image"@,
        Stage::Resize => "Resizing HDR image"@,
        Stage::ProjectionAdjustment => "Applying fisheye correction"@,
        Stage::VignettingCorrection => "Applying vignetting correction"@,
        Stage::NeutralDensity => "Applying neutral density correction"@,
        Stage::PhotometricAdjustment => "Applying photometric adjustment"@,
        Stage::Evalglare => "Evaluating glare"@,
        Stage::HeaderEditing => "Updating HDR header"@,
        Stage::Falsecolor => "Generating luminance map"@,
    }
}

/// Diameters above this many pixels are resized after cropping.
pub const RESIZE_THRESHOLD: u32 = 1000;

/// The stages of one scene, in order: the mandatory ones, and each optional
/// one whose parameter asks for it.
pub open spec fn stage_plan(p: SceneParams) -> Seq<Stage> {
    seq![Stage::MergeExposures, Stage::NullifyExposure, Stage::Crop]
        + (if p.geometry.diameter > RESIZE_THRESHOLD { seq![Stage::Resize] } else { seq![] })
        + (if p.fisheye_correction_cal@.len() > 0 { seq![Stage::ProjectionAdjustment] } else { seq![] })
        + (if p.vignetting_correction_cal@.len() > 0 { seq![Stage::VignettingCorrection] } else { seq![] })
        + (if p.neutral_density_cal@.len() > 0 { seq![Stage::NeutralDensity] } else { seq![] })
        + (if p.photometric_adjustment_cal@.len() > 0 { seq![Stage::PhotometricAdjustment] } else { seq![] })
        + seq![Stage::Evalglare, Stage::HeaderEditing, Stage::Falsecolor]
}

/// The stages after which progress is reported.
pub open spec fn is_counted(s: Stage) -> bool {
    s is MergeExposures || s is NullifyExposure || s is Crop || s is Evalglare || s is HeaderEditing
}

/// Number of stages after which progress is reported, among the first `k`
/// of `plan`.
pub open spec fn counted_before(plan: Seq<Stage>, k: int) -> nat
    decreases k,
{
    if k <= 0 {
        0
    } else {
        counted_before(plan, k - 1) + if is_counted(plan[k - 1]) { 1nat } else { 0nat }
    }
}

proof fn lemma_counted_prefix(a: Seq<Stage>, b: Seq<Stage>, k: int)
    requires
        0 <= k <= a.len(),
    ensures
        counted_before(a + b, k) == counted_before(a, k),
    decreases k,
{
    if k > 0 {
        lemma_counted_prefix(a, b, k - 1);
        assert((a + b)[k - 1] == a[k - 1]);
    }
}

proof fn lemma_counted_concat(a: Seq<Stage>, b: Seq<Stage>, k: int)
    requires
        0 <= k <= b.len(),
    ensures
        counted_before(a + b, a.len() + k) == counted_before(a, a.len() as int) + counted_before(b, k),
    decreases k,
{
    if k == 0 {
        lemma_counted_prefix(a, b, a.len() as int);
    } else {
        lemma_counted_concat(a, b, k - 1);
        assert((a + b)[a.len() + k - 1] == b[k - 1]);
    }
}

proof fn lemma_counted_monotone(plan: Seq<Stage>, j: int, k: int)
    requires
        0 <= j <= k,
    ensures
        counted_before(plan, j) <= counted_before(plan, k),
    decreases k - j,
{
    if j < k {
        lemma_counted_monotone(plan, j, k - 1);
    }
}

proof fn lemma_optional_uncounted(s: Seq<Stage>)
    requires
        s.len() <= 1,
        s.len() == 1 ==> !is_counted(s[0]),
    ensures
        counted_before(s, s.len() as int) == 0,
{
    if s.len() == 1 {
        assert(counted_before(s, 0) == 0);
    }
}

/// Every scene reports progress after exactly five of its stages, and
/// after no more than five of any prefix of them.
pub proof fn lemma_counted_stages(p: SceneParams, k: int)
    requires
        0 <= k <= stage_plan(p).len(),
    ensures
        counted_before(stage_plan(p), stage_plan(p).len() as int) == COUNTED_STAGES,
        counted_before(stage_plan(p), k) <= COUNTED_STAGES,
{
    let head = seq![Stage::MergeExposures, Stage::NullifyExposure, Stage::Crop];
    let o1 = if p.geometry.diameter > RESIZE_THRESHOLD { seq![Stage::Resize] } else { seq![] };
    let o2 = if p.fisheye_correction_cal@.len() > 0 { seq![Stage::ProjectionAdjustment] } else { seq![] };
    let o3 = if p.vignetting_correction_cal@.len() > 0 { seq![Stage::VignettingCorrection] } else { seq![] };
    let o4 = if p.neutral_density_cal@.len() > 0 { seq![Stage::NeutralDensity] } else { seq![] };
    let o5 = if p.photometric_adjustment_cal@.len() > 0 { seq![Stage::PhotometricAdjustment] } else { seq![] };
    let tail = seq![Stage::Evalglare, Stage::HeaderEditing, Stage::Falsecolor];
    assert(counted_before(head, 3) == 3) by {
        reveal_with_fuel(counted_before, 4);
    }
    assert(counted_before(tail, 3) == 2) by {
        reveal_with_fuel(counted_before, 4);
    }
    lemma_optional_uncounted(o1);
    lemma_optional_uncounted(o2);
    lemma_optional_uncounted(o3);
    lemma_optional_uncounted(o4);
    lemma_optional_uncounted(o5);
    lemma_counted_concat(head, o1, o1.len() as int);
    lemma_counted_concat(head + o1, o2, o2.len() as int);
    lemma_counted_concat(head + o1 + o2, o3, o3.len() as int);
    lemma_counted_concat(head + o1 + o2 + o3, o4, o4.len() as int);
    lemma_counted_concat(head + o1 + o2 + o3 + o4, o5, o5.len() as int);
    lemma_counted_concat(head + o1 + o2 + o3 + o4 + o5, tail, 3);
    assert(stage_plan(p) == head + o1 + o2 + o3 + o4 + o5 + tail);
    lemma_counted_monotone(stage_plan(p), k, stage_plan(p).len() as int);
}

/// Number of stages after which progress is reported.
pub const COUNTED_STAGES: u32 = 5;

/// The file a stage writes in the temporary directory; the glare
/// evaluation writes none.
pub open spec fn output_name(s: Stage) -> Seq<char> {
    match s {
        Stage::MergeExposures => "merge_exposures.hdr"@,
        Stage::NullifyExposure => "nullify_exposure_value.hdr"@,
        Stage::Crop => "crop.hdr"@,
        Stage::Resize => "resize.hdr"@,
        Stage::ProjectionAdjustment => "projection_adjustment.hdr"@,
        Stage::VignettingCorrection => "vignetting_correction.hdr"@,
        Stage::NeutralDensity => "neutral_density.hdr"@,
        Stage::PhotometricAdjustment => "photometric_adjustment.hdr"@,
        Stage::Evalglare => seq![],
        Stage::HeaderEditing => "header_editing.hdr"@,
        Stage::Falsecolor => "falsecolor_output.hdr"@,
    }
}

/// The file that stage `k` of `plan` reads: what the nearest earlier stage
/// that writes a file wrote.
pub open spec fn chain_input(plan: Seq<Stage>, k: int) -> Seq<char>
    decreases k,
{
    if k <= 0 {
        seq![]
    } else if plan[k - 1] is Evalglare {
        chain_input(plan, k - 1)
    } else {
        output_name(plan[k - 1])
    }
}

/// The stages of one scene, as [`stage_plan`] lists them.
pub fn stage_plan_of(p: &SceneParams) -> (plan: Vec<Stage>)
    ensures
        plan@ == stage_plan(*p),
{
    let mut plan: Vec<Stage> = vec![Stage::MergeExposures, Stage::NullifyExposure, Stage::Crop];
    let ghost base = plan@;
    if p.geometry.diameter > RESIZE_THRESHOLD {
        plan.push(Stage::Resize);
    }
    let ghost a = plan@;
    if p.fisheye_correction_cal.unicode_len() > 0 {
        plan.push(Stage::ProjectionAdjustment);
    }
    let ghost b = plan@;
    if p.vignetting_correction_cal.unicode_len() > 0 {
        plan.push(Stage::VignettingCorrection);
    }
    let ghost c = plan@;
    if p.neutral_density_cal.unicode_len() > 0 {
        plan.push(Stage::NeutralDensity);
    }
    let ghost d = plan@;
    if p.photometric_adjustment_cal.unicode_len() > 0 {
        plan.push(Stage::PhotometricAdjustment);
    }
    plan.push(Stage::Evalglare);
    plan.push(Stage::HeaderEditing);
    plan.push(Stage::Falsecolor);
    assert(plan@ =~= stage_plan(*p));
    plan
}

/// With no calibration file and a diameter of at most the threshold, a
/// scene runs neither the resize nor any of the corrections, and the glare
/// evaluation and the header editing both read the cropped image.
pub proof fn lemma_minimal_plan(p: SceneParams)
    requires
        p.geometry.diameter <= RESIZE_THRESHOLD,
        p.fisheye_correction_cal@.len() == 0,
        p.vignetting_correction_cal@.len() == 0,
        p.neutral_density_cal@.len() == 0,
        p.photometric_adjustment_cal@.len() == 0,
    ensures
        stage_plan(p) == seq![
            Stage::MergeExposures,
            Stage::NullifyExposure,
            Stage::Crop,
            Stage::Evalglare,
            Stage::HeaderEditing,
            Stage::Falsecolor,
        ],
        chain_input(stage_plan(p), 3) == "crop.hdr"@,
        chain_input(stage_plan(p), 4) == "crop.hdr"@,
        chain_input(stage_plan(p), 5) == "header_editing.hdr"@,
{
    assert(stage_plan(p) =~= seq![
        Stage::MergeExposures,
        Stage::NullifyExposure,
        Stage::Crop,
        Stage::Evalglare,
        Stage::HeaderEditing,
        Stage::Falsecolor,
    ]);
    assert(chain_input(stage_plan(p), 3) == "crop.hdr"@);
    assert(chain_input(stage_plan(p), 4) == chain_input(stage_plan(p), 3));
}

/// With a diameter above the threshold and a vignetting calibration only, a
/// scene runs the resize and the vignetting correction and no other
/// correction; the correction reads the resized image and the glare
/// evaluation reads the corrected one.
pub proof fn lemma_vignetting_only_plan(p: SceneParams)
    requires
        p.geometry.diameter > RESIZE_THRESHOLD,
        p.fisheye_correction_cal@.len() == 0,
        p.vignetting_correction_cal@.len() > 0,
        p.neutral_density_cal@.len() == 0,
        p.photometric_adjustment_cal@.len() == 0,
    ensures
        stage_plan(p) == seq![
            Stage::MergeExposures,
            Stage::NullifyExposure,
            Stage::Crop,
            Stage::Resize,
            Stage::VignettingCorrection,
            Stage::Evalglare,
            Stage::HeaderEditing,
            Stage::Falsecolor,
        ],
        chain_input(stage_plan(p), 4) == "resize.hdr"@,
        chain_input(stage_plan(p), 5) == "vignetting_correction.hdr"@,
        counted_before(stage_plan(p), 8) == COUNTED_STAGES,
{
    assert(stage_plan(p) =~= seq![
        Stage::MergeExposures,
        Stage::NullifyExposure,
        Stage::Crop,
        Stage::Resize,
        Stage::VignettingCorrection,
        Stage::Evalglare,
        Stage::HeaderEditing,
        Stage::Falsecolor,
    ]);
    lemma_counted_stages(p, 8);
}

/// A command of the Radiance suite or of the raw tools: no environment
/// overrides, no working directory, stdin inherited.
pub open spec fn plain_command(program: Seq<char>, args: Seq<Seq<char>>, stdout: OutputRoute) -> CommandModel {
    CommandModel {
        program,
        args,
        env: seq![],
        working_dir: None,
        stdin: InputRoute::Inherit,
        stdout,
    }
}

/// The Radiance program `name`.
pub open spec fn radiance_program(cfg: ConfigSettings, name: Seq<char>) -> Seq<char> {
    joined(cfg.radiance_path@, name)
}

/// Converts the merged image to zero exposure.
pub open spec fn nullify_model(cfg: ConfigSettings, input: Seq<char>, output: Seq<char>) -> CommandModel {
    plain_command(
        radiance_program(cfg, "ra_xyze"@),
        seq!["-r"@, "-o"@, input, output],
        OutputRoute::Inherit,
    )
}

/// Crops the square around the image circle.
pub open spec fn crop_model(cfg: ConfigSettings, input: Seq<char>, output: Seq<char>, g: FisheyeGeometry) -> CommandModel {
    plain_command(
        radiance_program(cfg, "pcompos"@),
        seq![
            "-x"@,
            decimal(g.diameter as nat),
            "-y"@,
            decimal(g.diameter as nat),
            input,
            "-"@ + decimal(g.xleft as nat),
            "-"@ + decimal(g.ydown as nat),
        ],
        OutputRoute::File(output),
    )
}

/// Resizes the image to `xdim` by `ydim` pixels.
pub open spec fn resize_model(cfg: ConfigSettings, input: Seq<char>, output: Seq<char>, xdim: u32, ydim: u32) -> CommandModel {
    plain_command(
        radiance_program(cfg, "pfilt"@),
        seq!["-1"@, "-x"@, decimal(xdim as nat), "-y"@, decimal(ydim as nat), input],
        OutputRoute::File(output),
    )
}

/// Applies the calibration file `cal` pixel by pixel; `keep_header` keeps
/// the input's header out of the result's exposure.
pub open spec fn pcomb_model(cfg: ConfigSettings, input: Seq<char>, output: Seq<char>, cal: Seq<char>, keep_header: bool) -> CommandModel {
    plain_command(
        radiance_program(cfg, "pcomb"@),
        (if keep_header { seq!["-h"@] } else { seq![] }) + seq!["-f"@, cal, input],
        OutputRoute::File(output),
    )
}

/// Evaluates glare; its value comes on stdout.
pub open spec fn evalglare_model(cfg: ConfigSettings, input: Seq<char>, vertical: u32, horizontal: u32) -> CommandModel {
    plain_command(
        radiance_program(cfg, "evalglare"@),
        seq![
            "-vta"@,
            "-vv"@,
            decimal(vertical as nat),
            "-vh"@,
            decimal(horizontal as nat),
            "-V"@,
            input,
        ],
        OutputRoute::Capture,
    )
}

/// The view line written into the header.
pub open spec fn view_line(vertical: u32, horizontal: u32) -> Seq<char> {
    "VIEW= -vta -vv "@ + decimal(vertical as nat) + " -vh "@ + decimal(horizontal as nat)
}

/// Writes the view and the glare value into the image header.
pub open spec fn header_model(cfg: ConfigSettings, input: Seq<char>, output: Seq<char>, vertical: u32, horizontal: u32, glare: Seq<char>) -> CommandModel {
    CommandModel {
        program: radiance_program(cfg, "getinfo"@),
        args: seq!["-a"@, view_line(vertical, horizontal), "-c"@, "EVALGLARE="@ + glare],
        env: seq![],
        working_dir: None,
        stdin: InputRoute::File(input),
        stdout: OutputRoute::File(output),
    }
}

/// The text of `p` before its last separator, or `p` itself when no
/// separator follows its first character.
pub open spec fn parent_or_self(p: Seq<char>) -> Seq<char> {
    let k = name_start(p, p.len() as int);
    if k >= 2 { p.subrange(0, k - 1) } else { p }
}

/// The arguments of the false-color rendering.
pub open spec fn falsecolor_args(input: Seq<char>, lum: LuminanceArgs) -> Seq<Seq<char>> {
    if lum.scale_label@.len() == 0 {
        seq!["-e"@, "-i"@, input]
    } else {
        seq![
            "-s"@,
            lum.scale_limit@,
            "-l"@,
            lum.scale_label@,
            "-n"@,
            lum.scale_levels@,
            "-e"@,
            "-lw/-lh"@,
            lum.legend_dimensions@,
            "-i"@,
            input,
        ]
    }
}

/// Renders the false-color luminance map; the library of the Radiance
/// installation and its programs are made visible to the tool.
pub open spec fn falsecolor_model(cfg: ConfigSettings, input: Seq<char>, output: Seq<char>, lum: LuminanceArgs, search: Seq<char>) -> CommandModel {
    CommandModel {
        program: radiance_program(cfg, "falsecolor"@),
        args: falsecolor_args(input, lum),
        env: seq![
            ("RAYPATH"@, parent_or_self(cfg.radiance_path@) + cfg.dir_separator@ + "lib"@),
            ("PATH"@, cfg.radiance_path@ + cfg.list_separator@ + search),
        ],
        working_dir: None,
        stdin: InputRoute::Inherit,
        stdout: OutputRoute::File(output),
    }
}

/// The flags that follow the inputs of the merge.
pub open spec fn merge_flags() -> Seq<Seq<char>> {
    seq!["-a"@, "-e"@, "-f"@, "-g"@, "-F"@]
}

/// Merges the exposures `images` into one HDR image, with the camera
/// response function `rsp` when one is given.
pub open spec fn merge_model(cfg: ConfigSettings, images: Seq<Seq<char>>, output: Seq<char>, rsp: Seq<char>) -> CommandModel {
    CommandModel {
        program: cfg.hdrgen.program@,
        args: images + seq!["-o"@, output] + (if rsp.len() > 0 { seq!["-r"@, rsp] } else { seq![] })
            + merge_flags(),
        env: seq![],
        working_dir: match cfg.hdrgen.working_dir {
            Some(d) => Some(d@),
            None => None,
        },
        stdin: InputRoute::Inherit,
        stdout: OutputRoute::Inherit,
    }
}

fn radiance_command(cfg: &ConfigSettings, name: &str) -> (r: CommandSpec)
    ensures
        r@ == plain_command(radiance_program(*cfg, name@), seq![], OutputRoute::Inherit),
{
    CommandSpec::new(join_path(cfg.radiance_path.as_str(), name).as_str())
}

/// The command that converts the merged image to zero exposure.
pub fn nullify_exposure_value(cfg: &ConfigSettings, input: &str, output: &str) -> (r: CommandSpec)
    ensures
        r@ == nullify_model(*cfg, input@, output@),
{
    let r = radiance_command(cfg, "ra_xyze").arg("-r").arg("-o").arg(input).arg(output).inherit_stdout();
    assert(r@.args =~= seq!["-r"@, "-o"@, input@, output@]);
    r
}

fn dashed(n: u32) -> (r: String)
    ensures
        r@ == "-"@ + decimal(n as nat),
{
    let d = decimal_text(n as u64);
    concat("-", d.as_str())
}

/// The command that crops the square around the image circle.
pub fn crop(cfg: &ConfigSettings, input: &str, output: &str, g: FisheyeGeometry) -> (r: CommandSpec)
    ensures
        r@ == crop_model(*cfg, input@, output@, g),
{
    let d = decimal_text(g.diameter as u64);
    let r = radiance_command(cfg, "pcompos").arg("-x").arg(d.as_str()).arg("-y").arg(d.as_str()).arg(
        input,
    ).arg(dashed(g.xleft).as_str()).arg(dashed(g.ydown).as_str()).stdout_file(output);
    assert(r@.args =~= crop_model(*cfg, input@, output@, g).args);
    r
}

/// The command that resizes the image to `xdim` by `ydim` pixels.
pub fn resize(cfg: &ConfigSettings, input: &str, output: &str, xdim: u32, ydim: u32) -> (r: CommandSpec)
    ensures
        r@ == resize_model(*cfg, input@, output@, xdim, ydim),
{
    let r = radiance_command(cfg, "pfilt").arg("-1").arg("-x").arg(decimal_text(xdim as u64).as_str()).arg(
        "-y",
    ).arg(decimal_text(ydim as u64).as_str()).arg(input).stdout_file(output);
    assert(r@.args =~= resize_model(*cfg, input@, output@, xdim, ydim).args);
    r
}

fn pcomb(cfg: &ConfigSettings, input: &str, output: &str, cal: &str, keep_header: bool) -> (r: CommandSpec)
    ensures
        r@ == pcomb_model(*cfg, input@, output@, cal@, keep_header),
{
    let mut r = radiance_command(cfg, "pcomb");
    if keep_header {
        r = r.arg("-h");
    }
    let r = r.arg("-f").arg(cal).arg(input).stdout_file(output);
    assert(r@.args =~= pcomb_model(*cfg, input@, output@, cal@, keep_header).args);
    r
}

/// The command that corrects the fisheye projection with `cal`.
pub fn projection_adjustment(cfg: &ConfigSettings, input: &str, output: &str, cal: &str) -> (r: CommandSpec)
    ensures
        r@ == pcomb_model(*cfg, input@, output@, cal@, false),
{
    pcomb(cfg, input, output, cal, false)
}

/// The command that corrects vignetting with `cal`.
pub fn vignetting_effect_correction(cfg: &ConfigSettings, input: &str, output: &str, cal: &str) -> (r: CommandSpec)
    ensures
        r@ == pcomb_model(*cfg, input@, output@, cal@, false),
{
    pcomb(cfg, input, output, cal, false)
}

/// The command that corrects for a neutral density filter with `cal`.
pub fn neutral_density(cfg: &ConfigSettings, input: &str, output: &str, cal: &str) -> (r: CommandSpec)
    ensures
        r@ == pcomb_model(*cfg, input@, output@, cal@, false),
{
    pcomb(cfg, input, output, cal, false)
}

/// The command that applies the photometric adjustment `cal`.
pub fn photometric_adjustment(cfg: &ConfigSettings, input: &str, output: &str, cal: &str) -> (r: CommandSpec)
    ensures
        r@ == pcomb_model(*cfg, input@, output@, cal@, true),
{
    pcomb(cfg, input, output, cal, true)
}

/// The command that evaluates glare in the image.
pub fn evalglare(cfg: &ConfigSettings, input: &str, vertical: u32, horizontal: u32) -> (r: CommandSpec)
    ensures
        r@ == evalglare_model(*cfg, input@, vertical, horizontal),
{
    let r = radiance_command(cfg, "evalglare").arg("-vta").arg("-vv").arg(
        decimal_text(vertical as u64).as_str(),
    ).arg("-vh").arg(decimal_text(horizontal as u64).as_str()).arg("-V").arg(input).capture_stdout();
    assert(r@.args =~= evalglare_model(*cfg, input@, vertical, horizontal).args);
    r
}

/// The command that writes the view and the glare value into the header.
pub fn header_editing(
    cfg: &ConfigSettings,
    input: &str,
    output: &str,
    vertical: u32,
    horizontal: u32,
    glare: &str,
) -> (r: CommandSpec)
    ensures
        r@ == header_model(*cfg, input@, output@, vertical, horizontal, glare@),
{
    let view = concat("VIEW= -vta -vv ", decimal_text(vertical as u64).as_str()).concat(" -vh ").concat(
        decimal_text(horizontal as u64).as_str(),
    );
    let value = concat("EVALGLARE=", glare);
    let r = radiance_command(cfg, "getinfo").arg("-a").arg(view.as_str()).arg("-c").arg(
        value.as_str(),
    ).stdin_file(input).stdout_file(output);
    assert(r@.args =~= header_model(*cfg, input@, output@, vertical, horizontal, glare@).args);
    r
}

/// The text of `p` before its last separator, as [`parent_or_self`] says.
pub fn parent_dir(p: &str) -> (r: String)
    ensures
        r@ == parent_or_self(p@),
{
    let n = p.unicode_len();
    let mut k: usize = n;
    while k > 0 && !(p.get_char(k - 1) == '/' || p.get_char(k - 1) == '\\')
        invariant
            k <= n,
            n == p@.len(),
            name_start(p@, n as int) == name_start(p@, k as int),
        decreases k,
    {
        k = k - 1;
    }
    if k >= 2 {
        String::from_str(p.substring_char(0, k - 1))
    } else {
        String::from_str(p)
    }
}

/// The command that renders the false-color luminance map, or an error when
/// the environment has no program search path.
pub fn falsecolor(cfg: &ConfigSettings, input: &str, output: &str, lum: &LuminanceArgs) -> (r: Result<CommandSpec, PipelineError>)
    ensures
        match cfg.search_path {
            Some(search) => r matches Ok(spec) && spec@ == falsecolor_model(*cfg, input@, output@, *lum, search@),
            None => r matches Err(PipelineError::Processing { .. }),
        },
{
    let search = match &cfg.search_path {
        Some(s) => s,
        None => {
            return Err(PipelineError::Processing {
                message: String::from_str("falsecolor: PATH environment variable unavailable"),
            });
        },
    };
    let raypath = parent_dir(cfg.radiance_path.as_str()).concat(cfg.dir_separator.as_str()).concat("lib");
    let path = concat(cfg.radiance_path.as_str(), cfg.list_separator.as_str()).concat(search.as_str());
    let mut spec = radiance_command(cfg, "falsecolor").env("RAYPATH", raypath.as_str()).env(
        "PATH",
        path.as_str(),
    ).stdout_file(output);
    if lum.scale_label.unicode_len() == 0 {
        spec = spec.arg("-e").arg("-i").arg(input);
    } else {
        spec = spec.arg("-s").arg(lum.scale_limit.as_str()).arg("-l").arg(lum.scale_label.as_str()).arg(
            "-n",
        ).arg(lum.scale_levels.as_str()).arg("-e").arg("-lw/-lh").arg(
            lum.legend_dimensions.as_str(),
        ).arg("-i").arg(input);
    }
    assert(spec@.args =~= falsecolor_args(input@, *lum));
    assert(spec@.env =~= falsecolor_model(*cfg, input@, output@, *lum, search@).env);
    Ok(spec)
}

/// The command that merges the exposures `images` into one HDR image.
pub fn merge_exposures(cfg: &ConfigSettings, images: &Vec<String>, rsp: &str, output: &str) -> (r: CommandSpec)
    ensures
        r@ == merge_model(*cfg, images.deep_view(), output@, rsp@),
{
    let mut spec = CommandSpec::new(cfg.hdrgen.program.as_str()).inherit_stdout();
    match &cfg.hdrgen.working_dir {
        Some(d) => {
            spec = spec.working_dir(d.as_str());
        },
        None => {},
    }
    spec = spec.args(images.clone());
    spec = spec.arg("-o").arg(output);
    if rsp.unicode_len() > 0 {
        spec = spec.arg("-r").arg(rsp);
    }
    let spec = spec.arg("-a").arg("-e").arg("-f").arg("-g").arg("-F");
    assert(spec@.args =~= merge_model(*cfg, images.deep_view(), output@, rsp@).args);
    spec
}

/// The command of stage `s` (any but the merge) reading `input` and
/// writing `output` in the temporary directory, with the glare value
/// `glare`; `search` is the environment's program search path.
pub open spec fn stage_model(
    cfg: ConfigSettings,
    p: SceneParams,
    s: Stage,
    input: Seq<char>,
    output: Seq<char>,
    glare: Seq<char>,
    search: Seq<char>,
) -> CommandModel {
    match s {
        Stage::NullifyExposure => nullify_model(cfg, input, output),
        Stage::Crop => crop_model(cfg, input, output, p.geometry),
        Stage::Resize => resize_model(cfg, input, output, p.xdim, p.ydim),
        Stage::ProjectionAdjustment => pcomb_model(cfg, input, output, p.fisheye_correction_cal@, false),
        Stage::VignettingCorrection => pcomb_model(cfg, input, output, p.vignetting_correction_cal@, false),
        Stage::NeutralDensity => pcomb_model(cfg, input, output, p.neutral_density_cal@, false),
        Stage::PhotometricAdjustment => pcomb_model(cfg, input, output, p.photometric_adjustment_cal@, true),
        Stage::Evalglare => evalglare_model(cfg, input, p.vertical_angle, p.horizontal_angle),
        Stage::HeaderEditing => header_model(cfg, input, output, p.vertical_angle, p.horizontal_angle, glare),
        _ => falsecolor_model(cfg, input, output, p.luminance, search),
    }
}

/// The command of stage `s`, which is not the merge, as [`stage_model`]
/// says; the false-color rendering fails without a program search path.
pub fn stage_command(
    cfg: &ConfigSettings,
    p: &SceneParams,
    s: Stage,
    input: &str,
    output: &str,
    glare: &str,
) -> (r: Result<CommandSpec, PipelineError>)
    requires
        !(s is MergeExposures),
    ensures
        match r {
            Ok(spec) => spec@ == stage_model(
                *cfg,
                *p,
                s,
                input@,
                output@,
                glare@,
                match cfg.search_path {
                    Some(x) => x@,
                    None => seq![],
                },
            ),
            Err(e) => s is Falsecolor && cfg.search_path is None && e is Processing,
        },
        s is Falsecolor && cfg.search_path is None ==> r is Err,
        !(s is Falsecolor) ==> r is Ok,
{
    match s {
        Stage::NullifyExposure => Ok(nullify_exposure_value(cfg, input, output)),
        Stage::Crop => Ok(crop(cfg, input, output, p.geometry)),
        Stage::Resize => Ok(resize(cfg, input, output, p.xdim, p.ydim)),
        Stage::ProjectionAdjustment => Ok(
            projection_adjustment(cfg, input, output, p.fisheye_correction_cal.as_str()),
        ),
        Stage::VignettingCorrection => Ok(
            vignetting_effect_correction(cfg, input, output, p.vignetting_correction_cal.as_str()),
        ),
        Stage::NeutralDensity => Ok(neutral_density(cfg, input, output, p.neutral_density_cal.as_str())),
        Stage::PhotometricAdjustment => Ok(
            photometric_adjustment(cfg, input, output, p.photometric_adjustment_cal.as_str()),
        ),
        Stage::Evalglare => Ok(evalglare(cfg, input, p.vertical_angle, p.horizontal_angle)),
        Stage::HeaderEditing => Ok(
            header_editing(cfg, input, output, p.vertical_angle, p.horizontal_angle, glare),
        ),
        _ => falsecolor(cfg, input, output, &p.luminance),
    }
}

} // verus!
