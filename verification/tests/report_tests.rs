use sysfetch::report::{cpu_brand_of, report_lines, styled_report_lines, SystemFacts};

fn full_facts() -> SystemFacts {
    SystemFacts {
        os_name: Some("TestOS".to_string()),
        os_version: Some("1.2".to_string()),
        kernel_version: Some("6.1.0".to_string()),
        cpu_arch: "x86_64".to_string(),
        cpu_brand: Some("TestBrand 9000".to_string()),
        uptime_seconds: 3661,
        total_memory_bytes: 4 * 1073741824,
        used_memory_bytes: 1610612736,
        total_swap_bytes: 1073741824,
        used_swap_bytes: 0,
        user_name: Some("alice".to_string()),
        host_name: Some("box".to_string()),
    }
}

#[test]
fn fixed_line_order() {
    let lines = report_lines(&full_facts(), "Fancy GPU");
    assert_eq!(
        lines,
        vec![
            "alice@box".to_string(),
            "          ".to_string(),
            "OS: TestOS 1.2 x86_64".to_string(),
            "Kernel: 6.1.0".to_string(),
            "Uptime: 1 hours, 1 minutes, 1 seconds".to_string(),
            "CPU: TestBrand 9000".to_string(),
            "GPU: Fancy GPU".to_string(),
            "Memory: 1.50 GB / 4.00 GB".to_string(),
            "Swap: 0.00 GB / 1.00 GB".to_string(),
        ]
    );
}

#[test]
fn multi_line_gpu_report_is_embedded() {
    let lines = report_lines(&full_facts(), "First GPU\nSecond GPU");
    assert_eq!(lines.len(), 9);
    assert_eq!(lines[6], "GPU: First GPU\nSecond GPU");
}

#[test]
fn absent_facts_fall_back_to_unknown() {
    let facts = SystemFacts {
        os_name: None,
        os_version: None,
        kernel_version: None,
        cpu_arch: "riscv64".to_string(),
        cpu_brand: None,
        uptime_seconds: 0,
        total_memory_bytes: 0,
        used_memory_bytes: 0,
        total_swap_bytes: 0,
        used_swap_bytes: 0,
        user_name: None,
        host_name: None,
    };
    let lines = report_lines(&facts, "No GPU found.");
    assert_eq!(
        lines,
        vec![
            "Unknown@Unknown".to_string(),
            "          ".to_string(),
            "OS: Unknown Unknown riscv64".to_string(),
            "Kernel: Unknown".to_string(),
            "Uptime: 0 hours, 0 minutes, 0 seconds".to_string(),
            "CPU: Unknown".to_string(),
            "GPU: No GPU found.".to_string(),
            "Memory: 0.00 GB / 0.00 GB".to_string(),
            "Swap: 0.00 GB / 0.00 GB".to_string(),
        ]
    );
}

#[test]
fn styled_report_keeps_text_and_order() {
    let lines = styled_report_lines(&full_facts(), "Fancy GPU");
    assert_eq!(lines.len(), 9);
    // Styling may add escape codes around each fragment, but never
    // changes the text itself.
    assert!(lines[0].contains("alice"));
    assert!(lines[0].contains('@'));
    assert!(lines[0].contains("box"));
    assert!(lines[1].contains("          "));
    assert!(lines[2].contains("OS:"));
    assert!(lines[2].contains("TestOS 1.2 x86_64"));
    assert!(lines[3].contains("Kernel:"));
    assert!(lines[3].contains("6.1.0"));
    assert!(lines[4].contains("Uptime:"));
    assert!(lines[4].contains("1 hours, 1 minutes, 1 seconds"));
    assert!(lines[5].contains("CPU:"));
    assert!(lines[5].contains("TestBrand 9000"));
    assert!(lines[6].contains("GPU:"));
    assert!(lines[6].contains("Fancy GPU"));
    assert!(lines[7].contains("Memory:"));
    assert!(lines[7].contains("1.50 GB / 4.00 GB"));
    assert!(lines[8].contains("Swap:"));
    assert!(lines[8].contains("0.00 GB / 1.00 GB"));
}

#[test]
fn first_cpu_brand_is_taken() {
    let brands = vec!["First Brand".to_string(), "Second Brand".to_string()];
    assert_eq!(cpu_brand_of(&brands), Some("First Brand".to_string()));
}

#[test]
fn no_cpus_gives_no_brand() {
    let brands: Vec<String> = Vec::new();
    assert_eq!(cpu_brand_of(&brands), None);
}
