use e2b::vnc::{
    password_from,
    xvfb_failed, xvfb_probe_step, ProbeStep,
    generate_password, novnc_command, ps_args, sandbox_host, vnc_url, x11vnc_args, xdpyinfo_args, xfce4_needs_start,
    xvfb_args, VncConfig, VncState, VncUrlOptions,
};

#[test]
fn test_vnc_server_creation() {
    let state = VncState::new();
    assert!(!state.is_running());
}

#[test]
fn test_password_generation() {
    let password = generate_password();
    assert_eq!(password.len(), 12);
    assert!(password.chars().all(|c| c.is_alphanumeric()));
}

#[test]
fn test_url_options() {
    let options = VncUrlOptions::new().with_autoconnect(true).with_view_only(false).with_resize("scale".to_string());

    assert!(options.autoconnect);
    assert!(!options.view_only);
    assert_eq!(options.resize, Some("scale".to_string()));
}

#[test]
fn vnc_commands() {
    assert_eq!(xvfb_args().join(" "), ":1 -ac -screen 0 1024x768x24 -retro -dpi 96 -nolisten tcp &");
    assert_eq!(xdpyinfo_args().join(" "), "-display :1");
    let mut c = VncConfig::default();
    assert_eq!(
        x11vnc_args(&c, Some("pw")).join(" "),
        "-display :1 -rfbport 5900 -shared -forever -noxdamage -noxfixes -noxrandr -passwd pw &"
    );
    c.enable_auth = false;
    c.window_id = Some("0x1234567".to_string());
    assert_eq!(
        x11vnc_args(&c, None).join(" "),
        "-display :1 -rfbport 5900 -shared -forever -noxdamage -noxfixes -noxrandr -nopw -id 0x1234567 &"
    );
    let (cmd, args) = novnc_command(&VncConfig { vnc_port: 5901, novnc_port: 6081, ..VncConfig::default() });
    assert_eq!(cmd, "cd");
    assert_eq!(
        args.join(" "),
        "/opt/noVNC/utils && ./novnc_proxy --vnc localhost:5901 --listen 6081 --web /opt/noVNC > /tmp/novnc.log 2>&1 &"
    );
    assert_eq!(ps_args(42).join(" "), "aux | grep 42 | grep -v grep | head -n 1");
    assert!(xfce4_needs_start(None, ""));
    assert!(xfce4_needs_start(Some(4), "[xfce4-session] <defunct>"));
    assert!(!xfce4_needs_start(Some(4), "user 4 xfce4-session"));
}

#[test]
fn vnc_browser_url() {
    let host = sandbox_host("sb", "cl");
    assert_eq!(host, "sb-cl.e2b.app");
    let opts = VncUrlOptions::new().with_autoconnect(true).with_resize("scale".to_string());
    let u = vnc_url(6080, &host, &opts, true, Some("abc")).unwrap();
    assert_eq!(u, "https://6080-sb-cl.e2b.app/vnc.html?autoconnect=true&resize=scale&password=abc");
    let u = vnc_url(6080, &host, &VncUrlOptions::new().with_view_only(true), false, Some("abc")).unwrap();
    assert_eq!(u, "https://6080-sb-cl.e2b.app/vnc.html?view_only=true");
}

#[test]
fn vnc_state_lifecycle() {
    let mut s = VncState::new();
    let config = VncConfig::default();
    let opts = VncUrlOptions::new();
    assert!(s.url(&config, "h.e2b.app", &opts).is_err());
    assert!(s.begin_start(&config));
    let pw = s.get_password().unwrap().to_string();
    assert_eq!(pw.len(), 12);
    s.finish_start();
    assert!(s.is_running());
    assert!(!s.begin_start(&config));
    let u = s.url(&config, "h.e2b.app", &opts).unwrap();
    assert!(u.ends_with(&format!("password={}", pw)));
    assert!(s.stop());
    assert!(!s.stop());
    assert!(s.begin_start(&config));
    assert_eq!(s.get_password().unwrap(), pw);
    let fixed = VncConfig { password: Some("secret".to_string()), ..VncConfig::default() };
    let mut s = VncState::new();
    s.begin_start(&fixed);
    assert_eq!(s.get_password(), Some("secret"));
}

#[test]
fn xvfb_probe_steps() {
    assert_eq!(xvfb_probe_step(0, 0), ProbeStep::Ready);
    assert_eq!(xvfb_probe_step(0, 1), ProbeStep::Wait);
    assert_eq!(xvfb_probe_step(3, 1), ProbeStep::Wait);
    assert_eq!(xvfb_probe_step(4, 1), ProbeStep::GiveUp);
    assert_eq!(xvfb_probe_step(4, 0), ProbeStep::Ready);
    assert_eq!(xvfb_failed().message(), Some("Could not start Xvfb."));
}

#[test]
fn generated_password_when_auth_without_password() {
    let mut s = VncState::new();
    assert!(s.begin_start(&VncConfig::default()));
    let pw = s.get_password().unwrap();
    assert_eq!(pw.len(), 12);
    assert!(pw.chars().all(|c| c.is_ascii_alphanumeric()));
    let mut s = VncState::new();
    s.begin_start(&VncConfig { enable_auth: false, ..VncConfig::default() });
    assert_eq!(s.get_password(), None);
}

#[test]
fn password_from_draws() {
    let draws = b"Ab3dEf6hIj9L".to_vec();
    assert_eq!(password_from(&draws), "Ab3dEf6hIj9L");
}
