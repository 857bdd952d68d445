use hdricalibrationtool::command::{CommandError, CommandOutput, CommandSpec, StdinSpec, StdoutSpec};
use hdricalibrationtool::exposure::FisheyeGeometry;
use hdricalibrationtool::image_cache::Tool;
use hdricalibrationtool::orchestrator::{HostEvent, PipelineRun, RunAction, StatusEvent};
use hdricalibrationtool::pipeline::{
    evalglare_result, format_timestamp, output_file_names, progress_of, supported_images,
    PipelineError, Timestamp,
};
use hdricalibrationtool::stages::{
    crop, falsecolor, header_editing, resize, ConfigSettings, LuminanceArgs, SceneParams, Stage,
};

fn config() -> ConfigSettings {
    ConfigSettings {
        radiance_path: "/opt/radiance/bin".to_string(),
        hdrgen: Tool {
            program: "/opt/hdrgen/hdrgen".to_string(),
            working_dir: None,
        },
        dcraw_emu: Tool {
            program: "/opt/raw/dcraw_emu".to_string(),
            working_dir: None,
        },
        output_path: "/out".to_string(),
        temp_path: "/out/tmp".to_string(),
        search_path: Some("/usr/bin".to_string()),
        list_separator: ":".to_string(),
        dir_separator: "/".to_string(),
    }
}

fn params(diameter: u32, vignetting: &str) -> SceneParams {
    SceneParams {
        response_function: String::new(),
        fisheye_correction_cal: String::new(),
        vignetting_correction_cal: vignetting.to_string(),
        photometric_adjustment_cal: String::new(),
        neutral_density_cal: String::new(),
        geometry: FisheyeGeometry {
            diameter,
            xleft: 0,
            ydown: 0,
        },
        xdim: 1000,
        ydim: 1000,
        vertical_angle: 180,
        horizontal_angle: 180,
        luminance: LuminanceArgs {
            scale_limit: String::new(),
            scale_label: String::new(),
            scale_levels: String::new(),
            legend_dimensions: String::new(),
        },
        filter_images: false,
    }
}

fn ok_output(stdout: &str) -> CommandOutput {
    CommandOutput {
        status_code: Some(0),
        stdout: stdout.to_string(),
        stderr: String::new(),
    }
}

/// Everything a run asked for, answering every action with success; the
/// glare evaluation answers `glare`.
struct Trace {
    commands: Vec<CommandSpec>,
    events: Vec<StatusEvent>,
    progress: Vec<u32>,
    copies: Vec<(String, String)>,
    result: Result<String, PipelineError>,
}

fn drive(run: PipelineRun, action: RunAction, glare: Result<CommandOutput, CommandError>) -> Trace {
    drive_listing(run, action, glare, &[])
}

fn drive_listing(
    mut run: PipelineRun,
    mut action: RunAction,
    glare: Result<CommandOutput, CommandError>,
    listing: &[&str],
) -> Trace {
    let mut trace = Trace {
        commands: Vec::new(),
        events: Vec::new(),
        progress: Vec::new(),
        copies: Vec::new(),
        result: Ok(String::new()),
    };
    for _ in 0..1000 {
        let event = match action {
            RunAction::Notify(e) => {
                trace.events.push(e);
                HostEvent::Done(Ok(()))
            }
            RunAction::ReportProgress(p) => {
                trace.progress.push(p);
                HostEvent::Done(Ok(()))
            }
            RunAction::Execute(spec) => {
                let is_glare = spec.program.ends_with("evalglare");
                trace.commands.push(spec);
                if is_glare {
                    HostEvent::Executed(glare.clone())
                } else {
                    HostEvent::Executed(Ok(ok_output("")))
                }
            }
            RunAction::FilterExposures { images, .. } => HostEvent::Filtered(Ok(images)),
            RunAction::CreateDir(_) => HostEvent::Done(Ok(())),
            RunAction::ListDir(dir) => HostEvent::Listed(Ok(listing
                .iter()
                .map(|name| format!("{dir}/{name}"))
                .collect())),
            RunAction::ReadClock => HostEvent::Clock(Timestamp {
                year: 2024,
                month: 3,
                day: 5,
                hour: 7,
                minute: 8,
                second: 9,
            }),
            RunAction::Copy { from, to } => {
                trace.copies.push((from, to));
                HostEvent::Done(Ok(()))
            }
            RunAction::Finish(r) => {
                trace.result = r;
                return trace;
            }
        };
        let (next, next_action) = run.step(event);
        run = next;
        action = next_action;
    }
    panic!("the run did not finish");
}

fn programs(trace: &Trace) -> Vec<String> {
    trace
        .commands
        .iter()
        .map(|c| c.program.rsplit('/').next().unwrap().to_string())
        .collect()
}

fn steps(trace: &Trace) -> Vec<Stage> {
    trace
        .events
        .iter()
        .filter_map(|e| match e {
            StatusEvent::Step(s) => Some(*s),
            _ => None,
        })
        .collect()
}

#[test]
fn minimal_scene_skips_optional_stages() {
    let inputs = vec!["/shots/a.jpg".to_string(), "/shots/b.jpg".to_string()];
    let (run, action) = PipelineRun::start(config(), params(1000, ""), inputs, false);
    let trace = drive(run, action, Ok(ok_output("0.31\n")));
    assert_eq!(
        programs(&trace),
        vec!["hdrgen", "ra_xyze", "pcompos", "evalglare", "getinfo", "falsecolor"]
    );
    let glare = &trace.commands[3];
    assert_eq!(glare.args.last().unwrap(), "/out/tmp/crop.hdr");
    let header = &trace.commands[4];
    assert!(matches!(header.stdin, StdinSpec::File(ref p) if p == "/out/tmp/crop.hdr"));
    assert_eq!(header.args[3], "EVALGLARE=0.31\n");
    assert!(trace.result.is_ok());
}

#[test]
fn vignetting_scene_with_large_diameter() {
    let inputs = vec!["/shots/a.jpg".to_string(), "/shots/b.jpg".to_string()];
    let (run, action) = PipelineRun::start(config(), params(2000, "/cal/vignetting.cal"), inputs, false);
    let trace = drive(run, action, Ok(ok_output("0.42")));
    assert_eq!(
        programs(&trace),
        vec!["hdrgen", "ra_xyze", "pcompos", "pfilt", "pcomb", "evalglare", "getinfo", "falsecolor"]
    );
    assert_eq!(
        steps(&trace),
        vec![
            Stage::MergeExposures,
            Stage::NullifyExposure,
            Stage::Crop,
            Stage::Resize,
            Stage::VignettingCorrection,
            Stage::Evalglare,
            Stage::HeaderEditing,
            Stage::Falsecolor,
        ]
    );
    let vignetting = &trace.commands[4];
    assert_eq!(vignetting.args, vec!["-f", "/cal/vignetting.cal", "/out/tmp/resize.hdr"]);
    assert_eq!(trace.progress, vec![0, 20, 40, 60, 80, 100]);
    assert!(matches!(trace.events.last(), Some(StatusEvent::Done(100))));
    assert_eq!(trace.result.as_ref().unwrap(), "/out");
    assert_eq!(trace.copies.len(), 2);
    assert_eq!(trace.copies[0].0, "/out/tmp/header_editing.hdr");
    assert_eq!(trace.copies[0].1, "/out/2024-03-05_07-08-09.hdr");
    assert_eq!(trace.copies[1].0, "/out/tmp/falsecolor_output.hdr");
    assert_eq!(trace.copies[1].1, "/out/2024-03-05_07-08-09_fc.hdr");
}

#[test]
fn merge_arguments_follow_inputs() {
    let inputs = vec!["/shots/a.jpg".to_string(), "/shots/b.jpg".to_string()];
    let mut p = params(1000, "");
    p.response_function = "/cal/cam.rsp".to_string();
    let (run, action) = PipelineRun::start(config(), p, inputs, false);
    let trace = drive(run, action, Ok(ok_output("1")));
    assert_eq!(
        trace.commands[0].args,
        vec![
            "/shots/a.jpg",
            "/shots/b.jpg",
            "-o",
            "/out/tmp/merge_exposures.hdr",
            "-r",
            "/cal/cam.rsp",
            "-a",
            "-e",
            "-f",
            "-g",
            "-F"
        ]
    );
}

#[test]
fn raw_inputs_are_converted_first() {
    let inputs = vec!["/shots/a.CR2".to_string(), "/shots/b.CR2".to_string()];
    let (run, action) = PipelineRun::start(config(), params(1000, ""), inputs, false);
    let trace = drive(run, action, Ok(ok_output("1")));
    assert_eq!(programs(&trace)[..3], ["dcraw_emu", "dcraw_emu", "hdrgen"]);
    let first = &trace.commands[0].args;
    assert_eq!(first[first.len() - 3..], ["-Z", "/out/tmp/input1.tiff", "/shots/a.CR2"]);
    assert_eq!(
        trace.commands[2].args[..2],
        ["/out/tmp/input1.tiff", "/out/tmp/input2.tiff"]
    );
}

#[test]
fn empty_input_is_rejected() {
    let (_, action) = PipelineRun::start(config(), params(1000, ""), vec![], false);
    match action {
        RunAction::Finish(Err(PipelineError::InvalidInput { field, value })) => {
            assert_eq!(field, "inputImages");
            assert_eq!(value, "empty");
        }
        _ => panic!("expected an invalid input"),
    }
}

#[test]
fn unsupported_format_is_rejected() {
    let inputs = vec!["/shots/a.png".to_string()];
    let (run, action) = PipelineRun::start(config(), params(1000, ""), inputs, false);
    let trace = drive(run, action, Ok(ok_output("1")));
    assert!(trace.commands.is_empty());
    match trace.result {
        Err(PipelineError::InvalidInput { value, .. }) => assert_eq!(value, "unsupported-format"),
        _ => panic!("expected an invalid input"),
    }
}

#[test]
fn batch_directory_without_images_is_rejected() {
    let inputs = vec!["/shots/day1".to_string()];
    let (run, action) = PipelineRun::start(config(), params(1000, ""), inputs, true);
    let trace = drive(run, action, Ok(ok_output("1")));
    match trace.result {
        Err(PipelineError::InvalidInput { value, .. }) => {
            assert_eq!(value, "directory-without-images")
        }
        _ => panic!("expected an invalid input"),
    }
}

#[test]
fn failed_stage_reports_error_then_fails() {
    let inputs = vec!["/shots/a.jpg".to_string()];
    let glare = Err(CommandError::NonZeroExit {
        program: "evalglare".to_string(),
        args: vec![],
        status_code: Some(1),
        stdout: "  \n".to_string(),
        stderr: "bad".to_string(),
    });
    let (run, action) = PipelineRun::start(config(), params(1000, ""), inputs, false);
    let trace = drive(run, action, glare);
    assert!(matches!(trace.events.last(), Some(StatusEvent::Error(PipelineError::Command { .. }))));
    assert!(matches!(trace.result, Err(PipelineError::Command { .. })));
    assert_eq!(programs(&trace).last().unwrap(), "evalglare");
}

#[test]
fn recovered_glare_value_gives_warning() {
    let inputs = vec!["/shots/a.jpg".to_string()];
    let glare = Err(CommandError::NonZeroExit {
        program: "evalglare".to_string(),
        args: vec![],
        status_code: Some(2),
        stdout: "0.5".to_string(),
        stderr: String::new(),
    });
    let (run, action) = PipelineRun::start(config(), params(1000, ""), inputs, false);
    let trace = drive(run, action, glare);
    assert!(trace.result.is_ok());
    let warnings: Vec<&String> = trace
        .events
        .iter()
        .filter_map(|e| match e {
            StatusEvent::Warning(w) => Some(w),
            _ => None,
        })
        .collect();
    assert_eq!(
        warnings,
        vec!["evalglare exited with status Some(2); using returned value."]
    );
}

#[test]
fn evalglare_result_cases() {
    let ok = evalglare_result(Ok(ok_output("0.2"))).unwrap();
    assert_eq!(ok.value, "0.2");
    assert!(ok.warning.is_none());
    let recovered = evalglare_result(Err(CommandError::NonZeroExit {
        program: "evalglare".to_string(),
        args: vec![],
        status_code: Some(-1),
        stdout: "0.7\n".to_string(),
        stderr: "  oops \n".to_string(),
    }))
    .unwrap();
    assert_eq!(recovered.value, "0.7\n");
    assert_eq!(
        recovered.warning.unwrap(),
        "evalglare exited with status Some(-1); stderr: oops"
    );
    let unicode = evalglare_result(Err(CommandError::NonZeroExit {
        program: "evalglare".to_string(),
        args: vec![],
        status_code: None,
        stdout: "\u{3000}0.9\u{2029}".to_string(),
        stderr: "\u{a0}\tbad glare\u{85}".to_string(),
    }))
    .unwrap();
    assert_eq!(
        unicode.warning.unwrap(),
        "evalglare exited with status None; stderr: bad glare"
    );
    let blank = evalglare_result(Err(CommandError::NonZeroExit {
        program: "evalglare".to_string(),
        args: vec![],
        status_code: Some(1),
        stdout: "\u{2003}\n".to_string(),
        stderr: String::new(),
    }));
    assert!(matches!(blank, Err(PipelineError::Command { .. })));
    let spawn = evalglare_result(Err(CommandError::Spawn {
        program: "evalglare".to_string(),
        args: vec![],
        message: "missing".to_string(),
    }));
    assert!(matches!(spawn, Err(PipelineError::Command { error: CommandError::Spawn { .. } })));
}

#[test]
fn stage_commands_are_exact() {
    let cfg = config();
    let c = crop(
        &cfg,
        "/t/in.hdr",
        "/t/crop.hdr",
        FisheyeGeometry {
            diameter: 3648,
            xleft: 1152,
            ydown: 0,
        },
    );
    assert_eq!(c.program, "/opt/radiance/bin/pcompos");
    assert_eq!(c.args, vec!["-x", "3648", "-y", "3648", "/t/in.hdr", "-1152", "-0"]);
    assert!(matches!(c.stdout, StdoutSpec::File(ref p) if p == "/t/crop.hdr"));
    let r = resize(&cfg, "/t/crop.hdr", "/t/resize.hdr", 1000, 800);
    assert_eq!(r.args, vec!["-1", "-x", "1000", "-y", "800", "/t/crop.hdr"]);
    let h = header_editing(&cfg, "/t/in.hdr", "/t/out.hdr", 180, 90, "0.3");
    assert_eq!(h.args, vec!["-a", "VIEW= -vta -vv 180 -vh 90", "-c", "EVALGLARE=0.3"]);
    let lum = LuminanceArgs {
        scale_limit: "1000".to_string(),
        scale_label: "cd/m2".to_string(),
        scale_levels: "10".to_string(),
        legend_dimensions: "100 200".to_string(),
    };
    let f = falsecolor(&cfg, "/t/h.hdr", "/t/fc.hdr", &lum).unwrap();
    assert_eq!(
        f.args,
        vec!["-s", "1000", "-l", "cd/m2", "-n", "10", "-e", "-lw/-lh", "100 200", "-i", "/t/h.hdr"]
    );
    assert_eq!(
        f.env,
        vec![
            ("RAYPATH".to_string(), "/opt/radiance/lib".to_string()),
            ("PATH".to_string(), "/opt/radiance/bin:/usr/bin".to_string()),
        ]
    );
    let mut no_path = config();
    no_path.search_path = None;
    assert!(matches!(
        falsecolor(&no_path, "/t/h.hdr", "/t/fc.hdr", &lum),
        Err(PipelineError::Processing { .. })
    ));
}

#[test]
fn timestamps_and_output_names() {
    let t = Timestamp {
        year: 2024,
        month: 3,
        day: 5,
        hour: 7,
        minute: 8,
        second: 9,
    };
    assert_eq!(format_timestamp(t), "2024-03-05_07-08-09");
    let (hdr, fc) = output_file_names("/out", Some("day1"), t);
    assert_eq!(hdr, "/out/day1_2024-03-05_07-08-09.hdr");
    assert_eq!(fc, "/out/day1_2024-03-05_07-08-09_fc.hdr");
    let (hdr, fc) = output_file_names("/out/", None, t);
    assert_eq!(hdr, "/out/2024-03-05_07-08-09.hdr");
    assert_eq!(fc, "/out/2024-03-05_07-08-09_fc.hdr");
}

#[test]
fn progress_is_rounded_percent() {
    assert_eq!(progress_of(0, 5), 0);
    assert_eq!(progress_of(1, 5), 20);
    assert_eq!(progress_of(5, 5), 100);
    assert_eq!(progress_of(1, 3), 33);
    assert_eq!(progress_of(2, 3), 67);
}

#[test]
fn listing_keeps_supported_images() {
    let entries = vec![
        "/d/a.JPG".to_string(),
        "/d/notes.txt".to_string(),
        "/d/b.cr2".to_string(),
        "/d/.jpg".to_string(),
    ];
    assert_eq!(supported_images(&entries), vec!["/d/a.JPG", "/d/b.cr2"]);
}

#[test]
fn batch_progress_never_falls() {
    let inputs = vec!["/shots/day1".to_string(), "/shots/day2/".to_string()];
    let (run, action) = PipelineRun::start(config(), params(1000, ""), inputs, true);
    let trace = drive_listing(run, action, Ok(ok_output("0.1")), &["a.jpg", "b.jpg", "notes.txt"]);
    assert_eq!(trace.progress, vec![0, 10, 20, 30, 40, 50, 60, 70, 80, 90, 100]);
    let statuses: Vec<u32> = trace
        .events
        .iter()
        .filter_map(|e| match e {
            StatusEvent::Progress(p) => Some(*p),
            _ => None,
        })
        .collect();
    assert_eq!(statuses, trace.progress);
    assert!(matches!(trace.events.last(), Some(StatusEvent::Done(100))));
    assert_eq!(trace.copies.len(), 4);
    assert_eq!(trace.copies[0].0, "/out/tmp/day1/header_editing.hdr");
    assert_eq!(trace.copies[0].1, "/out/day1_2024-03-05_07-08-09.hdr");
    assert_eq!(trace.copies[2].0, "/out/tmp/day2/header_editing.hdr");
    assert_eq!(trace.copies[3].1, "/out/day2_2024-03-05_07-08-09_fc.hdr");
    assert_eq!(trace.result.as_ref().unwrap(), "/shots/day2/");
}
