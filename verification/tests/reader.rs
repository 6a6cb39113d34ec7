use nvidia_migmanager::error::Error;
use nvidia_migmanager::executor::ProcessOutcome;
use nvidia_migmanager::reader::{parse_query_output, run_gpu_query, to_chars};
use nvidia_migmanager::state::{GpuModeRecord, MigState};

fn gpu(name: &str, current: MigState, pending: MigState) -> GpuModeRecord {
    GpuModeRecord { name: name.to_string(), current, pending }
}

fn state(field: &str) -> MigState {
    match field {
        "Enabled" => MigState::Enabled,
        "Disabled" => MigState::Disabled,
        _ => MigState::Unknown,
    }
}

/// The same parsing, written with the standard library's own splitting.
fn by_std(output: &str) -> Vec<GpuModeRecord> {
    let mut modes = Vec::new();
    for line in output.lines() {
        let parts: Vec<&str> = line.split(", ").collect();
        if parts.len() == 3 {
            modes.push(gpu(parts[0], state(parts[1]), state(parts[2])));
        }
    }
    modes
}

#[test]
fn chars_are_kept() {
    assert_eq!(to_chars(""), Vec::<char>::new());
    assert_eq!(to_chars("a, b\n"), vec!['a', ',', ' ', 'b', '\n']);
    assert_eq!(to_chars("é, ü"), vec!['é', ',', ' ', 'ü']);
}

#[test]
fn empty_output_is_an_empty_snapshot() {
    assert_eq!(parse_query_output(""), Vec::new());
    assert_eq!(parse_query_output("\n"), Vec::new());
    assert_eq!(parse_query_output("\n\n\n"), Vec::new());
}

#[test]
fn one_line() {
    assert_eq!(
        parse_query_output("NVIDIA A100-SXM4-40GB, Disabled, Enabled\n"),
        vec![gpu("NVIDIA A100-SXM4-40GB", MigState::Disabled, MigState::Enabled)]
    );
}

#[test]
fn last_line_needs_no_line_feed() {
    assert_eq!(
        parse_query_output("a, Enabled, Enabled\nb, Disabled, Disabled"),
        vec![
            gpu("a", MigState::Enabled, MigState::Enabled),
            gpu("b", MigState::Disabled, MigState::Disabled)
        ]
    );
}

#[test]
fn eight_lines_in_query_order() {
    let mut output = String::new();
    for i in 0..8 {
        output.push_str(&format!("GPU {}, Disabled, Disabled\n", i));
    }
    let modes = parse_query_output(&output);
    assert_eq!(modes.len(), 8);
    for (i, record) in modes.iter().enumerate() {
        assert_eq!(record.name, format!("GPU {}", i));
        assert_eq!(record.current, MigState::Disabled);
        assert_eq!(record.pending, MigState::Disabled);
    }
}

#[test]
fn other_text_is_unknown() {
    assert_eq!(
        parse_query_output("a, [N/A], [N/A]\n"),
        vec![gpu("a", MigState::Unknown, MigState::Unknown)]
    );
    assert_eq!(
        parse_query_output("a, enabled, DISABLED\n"),
        vec![gpu("a", MigState::Unknown, MigState::Unknown)]
    );
    assert_eq!(
        parse_query_output("a, Enable, Disabledd\n"),
        vec![gpu("a", MigState::Unknown, MigState::Unknown)]
    );
    assert_eq!(parse_query_output("a, , \n"), vec![gpu("a", MigState::Unknown, MigState::Unknown)]);
    assert_eq!(
        parse_query_output("a, Transition, Unknown\n"),
        vec![gpu("a", MigState::Unknown, MigState::Unknown)]
    );
}

#[test]
fn whitespace_variants_are_unknown() {
    assert_eq!(
        parse_query_output("a,  Enabled, Disabled \n"),
        vec![gpu("a", MigState::Unknown, MigState::Unknown)]
    );
    assert_eq!(
        parse_query_output("a, Enabled\t, \tDisabled\n"),
        vec![gpu("a", MigState::Unknown, MigState::Unknown)]
    );
}

#[test]
fn separator_is_comma_and_space() {
    assert_eq!(parse_query_output("a,Enabled,Enabled\n"), Vec::new());
    assert_eq!(parse_query_output("a,Enabled, Enabled\n"), Vec::new());
    assert_eq!(
        parse_query_output("a,b, Enabled, Enabled\n"),
        vec![gpu("a,b", MigState::Enabled, MigState::Enabled)]
    );
    assert_eq!(
        parse_query_output(", Enabled, Enabled\n"),
        vec![gpu("", MigState::Enabled, MigState::Enabled)]
    );
    assert_eq!(parse_query_output(", , "), vec![gpu("", MigState::Unknown, MigState::Unknown)]);
    assert_eq!(
        parse_query_output("a,, Enabled,, Disabled"),
        vec![gpu("a,", MigState::Unknown, MigState::Disabled)]
    );
}

#[test]
fn malformed_lines_are_skipped() {
    let output = "banner\n\
                  a, Disabled, Disabled\n\
                  \n\
                  too, many, fields, here\n\
                  two, fields\n\
                  b, Disabled, Disabled\n\
                  \n";
    let modes = parse_query_output(output);
    assert_eq!(
        modes,
        vec![
            gpu("a", MigState::Disabled, MigState::Disabled),
            gpu("b", MigState::Disabled, MigState::Disabled)
        ]
    );
    assert_eq!(modes, parse_query_output("a, Disabled, Disabled\nb, Disabled, Disabled\n"));
}

#[test]
fn malformed_line_does_not_affect_aggregation() {
    let clean = "a, Disabled, Enabled\nb, Disabled, Enabled\n";
    let noisy = "a, Disabled, Enabled\nnot a reading\nb, Disabled, Enabled\nx, y, z, w\n";
    let clean_modes = parse_query_output(clean);
    let noisy_modes = parse_query_output(noisy);
    assert_eq!(clean_modes, noisy_modes);
    assert_eq!(
        nvidia_migmanager::analyzer::get_mig_mode(&noisy_modes),
        MigState::Transition
    );
    assert!(nvidia_migmanager::analyzer::is_mig_capable(&noisy_modes));
}

#[test]
fn carriage_return_before_line_feed_is_dropped() {
    assert_eq!(
        parse_query_output("a, Enabled, Disabled\r\nb, Disabled, Enabled\r\n"),
        vec![
            gpu("a", MigState::Enabled, MigState::Disabled),
            gpu("b", MigState::Disabled, MigState::Enabled)
        ]
    );
    // Only one carriage return goes, and only before a line feed.
    assert_eq!(
        parse_query_output("a, Enabled, Disabled\r\r\n"),
        vec![gpu("a", MigState::Enabled, MigState::Unknown)]
    );
    assert_eq!(
        parse_query_output("a, Enabled, Disabled\r"),
        vec![gpu("a", MigState::Enabled, MigState::Unknown)]
    );
    assert_eq!(
        parse_query_output("a\r, Enabled, Disabled\n"),
        vec![gpu("a\r", MigState::Enabled, MigState::Disabled)]
    );
}

#[test]
fn names_may_hold_any_characters() {
    assert_eq!(
        parse_query_output("Grafikkarte Größe 40 ГБ, Enabled, Enabled\n"),
        vec![gpu("Grafikkarte Größe 40 ГБ", MigState::Enabled, MigState::Enabled)]
    );
    assert_eq!(
        parse_query_output("日本語, Disabled, Enabled\n雪, Enabled, [N/A]"),
        vec![
            gpu("日本語", MigState::Disabled, MigState::Enabled),
            gpu("雪", MigState::Enabled, MigState::Unknown)
        ]
    );
}

#[test]
fn raw_readings_are_never_transition() {
    let modes = parse_query_output("a, Transition, Transition\nb, Disabled, Enabled\n");
    for record in &modes {
        assert_ne!(record.current, MigState::Transition);
        assert_ne!(record.pending, MigState::Transition);
    }
    assert_eq!(modes.len(), 2);
}

#[test]
fn agrees_with_the_standard_library() {
    let inputs = [
        "",
        "\n",
        "\r\n",
        "\r",
        "a",
        "a, b",
        "a, b, c",
        "a, b, c, d",
        "a, b, c\n",
        "a, b, c\r\n",
        "a, b, c\r",
        "a, b, c\n\n",
        "\na, b, c",
        "a, Enabled, Disabled\nb, Disabled, Enabled",
        "a, Enabled, Disabled\r\nb, Disabled, Enabled\r\n",
        ", , ",
        ", ",
        ",",
        " ,",
        ", , , ",
        "a,, b, c",
        "a, , b",
        "a , b , c",
        "a,b,c",
        "x\ny, Enabled, Enabled\nz, z\n\nw, Disabled, Disabled",
        "NVIDIA A100-SXM4-40GB, Disabled, Disabled\nNVIDIA A100-SXM4-40GB, Disabled, Disabled\n",
        "é, Enabled, Enabled\nü, ü\n",
        "a, Enabled, Enabled,",
        "a, Enabled, Enabled, ",
        "a, Enabled,  Enabled",
        "\r\r\n, Enabled, Disabled\r\n\r",
    ];
    for input in inputs {
        assert_eq!(parse_query_output(input), by_std(input), "for {:?}", input);
    }
}

#[test]
fn query_that_succeeds_is_parsed() {
    let outcome = ProcessOutcome::Exited {
        success: true,
        stdout: "a, Enabled, Enabled\n".to_string(),
        stderr: "warning".to_string(),
    };
    assert_eq!(run_gpu_query(outcome), Ok(vec![gpu("a", MigState::Enabled, MigState::Enabled)]));
}

#[test]
fn query_that_fails_is_a_command_failure() {
    let outcome = ProcessOutcome::Exited {
        success: false,
        stdout: "a, Enabled, Enabled\n".to_string(),
        stderr: "no devices".to_string(),
    };
    assert_eq!(
        run_gpu_query(outcome),
        Err(Error::CommandFailure {
            bin_path: "/usr/libexec/nvidia/tesla/bin/nvidia-smi".to_string(),
            stderr: "no devices".to_string(),
        })
    );
}

#[test]
fn query_that_does_not_start_is_an_execution_failure() {
    let outcome = ProcessOutcome::NotStarted {
        command: "\"nvidia-smi\"".to_string(),
        reason: "No such file or directory (os error 2)".to_string(),
    };
    assert_eq!(
        run_gpu_query(outcome),
        Err(Error::ExecutionFailure {
            command: "\"nvidia-smi\"".to_string(),
            reason: "No such file or directory (os error 2)".to_string(),
        })
    );
}
