use deploy_worker::installer::{
    build_msi_install_command, build_msi_uninstall_command, is_valid_product_code,
    wrap_for_service_execution, InstallerError, MsiCommandBuilder, MsiExitCode,
};
use deploy_worker::installer::get_remote_log_path;
use deploy_worker::types::JobType;

#[test]
fn test_build_msi_install_command() {
    let cmd = build_msi_install_command(
        "C:\\Windows\\Temp\\installer.msi",
        Some("/norestart"),
        Some("token123"),
    )
    .unwrap();

    assert!(cmd.contains("msiexec /i"));
    assert!(cmd.contains("installer.msi"));
    assert!(cmd.contains("/qn"));
    assert!(cmd.contains("/norestart"));
    assert!(cmd.contains("ENROLL_TOKEN=token123"));
}

#[test]
fn test_build_msi_uninstall_command() {
    let cmd = build_msi_uninstall_command("{12345678-1234-1234-1234-123456789012}", None).unwrap();

    assert!(cmd.contains("msiexec /x"));
    assert!(cmd.contains("{12345678-1234-1234-1234-123456789012}"));
    assert!(cmd.contains("/qn"));
}

#[test]
fn test_invalid_product_code() {
    let result = build_msi_uninstall_command("{invalid-guid}", None);
    assert!(matches!(result, Err(InstallerError::InvalidProductCode(_))));
}

#[test]
fn test_msi_exit_codes() {
    assert!(MsiExitCode::from(0).is_success());
    assert!(MsiExitCode::from(3010).is_success());
    assert!(!MsiExitCode::from(1618).is_success());
    assert!(!MsiExitCode::from(1).is_success());
}

#[test]
fn test_wrap_for_service_execution() {
    let cmd = wrap_for_service_execution("msiexec /i test.msi /qn");
    assert_eq!(cmd, "cmd.exe /c msiexec /i test.msi /qn");
}

#[test]
fn test_valid_product_code() {
    assert!(is_valid_product_code("{12345678-1234-1234-1234-123456789012}"));
    assert!(is_valid_product_code("{ABCDEF01-2345-6789-ABCD-EF0123456789}"));
    assert!(!is_valid_product_code("not-a-guid"));
    assert!(!is_valid_product_code("{12345678-1234-1234-123456789012}")); // Missing section
}

#[test]
fn test_msi_command_builder() {
    let cmd = MsiCommandBuilder::new("C:\\installer.msi", JobType::MsiInstall)
        .with_args("/norestart")
        .with_property("KEY1", "value1")
        .with_property("KEY2", "value with space")
        .with_logging("C:\\install.log")
        .build()
        .unwrap();

    assert!(cmd.contains("msiexec /i"));
    assert!(cmd.contains("/qn"));
    assert!(cmd.contains("/norestart"));
    assert!(cmd.contains("KEY1=value1"));
    assert!(cmd.contains("KEY2=\"value with space\""));
    assert!(cmd.contains("/l*v"));
}

#[test]
fn test_install_command_exact_text() {
    let cmd = build_msi_install_command(
        "C:\\Windows\\Temp\\app.msi",
        Some("ARG1 ARG2"),
        Some("tok"),
    )
    .unwrap();
    assert_eq!(
        cmd,
        "msiexec /i \"C:\\Windows\\Temp\\app.msi\" /qn /norestart ARG1 ARG2 ENROLL_TOKEN=tok"
    );
}

#[test]
fn test_install_command_deterministic() {
    let a = build_msi_install_command("\\\\srv\\share\\x.msi", Some("/a /b"), None).unwrap();
    let b = build_msi_install_command("\\\\srv\\share\\x.msi", Some("/a /b"), None).unwrap();
    assert_eq!(a, b);
}

#[test]
fn test_builder_rejects_generic_execute() {
    let result = MsiCommandBuilder::new("C:\\x.msi", JobType::Execute).build();
    assert!(matches!(
        result,
        Err(InstallerError::UnsupportedJobType(JobType::Execute))
    ));
}

#[test]
fn test_builder_flags_off() {
    let cmd = MsiCommandBuilder::new("C:\\x.msi", JobType::MsiInstall)
        .quiet(false)
        .no_restart(false)
        .build()
        .unwrap();
    assert_eq!(cmd, "msiexec /i \"C:\\x.msi\"");
}

#[test]
fn test_installer_error_messages() {
    let e = InstallerError::InvalidProductCode("{bad}".to_string());
    assert_eq!(e.message(), "Invalid product code format: {bad}");
    let e = InstallerError::UnsupportedJobType(JobType::Execute);
    assert_eq!(e.message(), "Unsupported job type: Execute");
}

#[test]
fn test_get_remote_log_path() {
    assert_eq!(
        get_remote_log_path("host1", "installer.msi"),
        "\\\\host1\\ADMIN$\\Temp\\installer.log"
    );
    assert_eq!(
        get_remote_log_path("host1", "plain.txt"),
        "\\\\host1\\ADMIN$\\Temp\\plain.txt"
    );
}

#[test]
fn test_exit_code_roundtrip() {
    assert_eq!(MsiExitCode::from(1605).code(), 1605);
    assert_eq!(MsiExitCode::from(7).code(), 7);
    assert_eq!(MsiExitCode::from(0), MsiExitCode::Success);
}
