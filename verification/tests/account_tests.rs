use duckhub::system_stats::{NetworkInfo, network_io_totals, count_processes};
use duckhub::security::{AuthService, User};
use duckhub::lake_metrics::{sampling_plan, activity_window_secs, sample_times, generate_ducklake_metrics,
    generate_performance_history, demo_series, ducklake_metrics_at, performance_history_at};

#[test]
fn login_accepts_only_the_admin_account() {
    let svc = AuthService::new("secret".to_string());
    assert_eq!(svc.jwt_secret(), "secret");
    assert_eq!(svc.token_expiry_secs(), 86400);
    let g = svc.login("admin", "admin123").unwrap();
    assert_eq!(g.user.username, "admin");
    assert_eq!(g.user.email, "admin@duckhub.com");
    assert_eq!(g.user.roles, vec!["admin".to_string()]);
    assert!(g.user.is_active);
    assert_eq!(g.user.last_login, Some(g.user.created_at));
    assert_eq!(g.expires_at, g.user.created_at + 86400);
    assert_eq!(g.claims.iat as i64, g.user.created_at);
    assert_eq!(g.claims.exp as i64, g.user.created_at + 86400);
    assert_eq!(g.claims.username, "admin");
    assert_eq!(g.claims.sub, uuid::Uuid::from_u128(g.user.id).to_string());
    assert_eq!(g.claims.sub.len(), 36);
    let err = svc.login("admin", "wrong").err().unwrap();
    assert_eq!(err, "用户名或密码错误");
    assert!(svc.login("root", "admin123").is_err());
}

#[test]
fn authenticate_backdates_the_account() {
    let svc = AuthService::new("k".to_string());
    let u = svc.authenticate("admin", "admin123").unwrap();
    assert_eq!(u.last_login, Some(u.created_at + 2_592_000));
    assert_eq!(u.roles, vec!["admin".to_string()]);
    assert_eq!(svc.authenticate("guest", "x").err().unwrap(), "用户名或密码错误");
}

#[test]
fn claims_of_a_login_refresh_to_the_same_user() {
    let svc = AuthService::new("k".to_string());
    let g = svc.login("admin", "admin123").unwrap();
    let id = g.user.id;
    let r = svc.refresh_from_claims(g.claims).unwrap();
    assert_eq!(r.user.id, id);
    assert_eq!(r.user.username, "admin");
    assert_eq!(r.user.roles, vec!["admin".to_string()]);
    assert_eq!(r.user.last_login, Some(r.user.created_at + 2_592_000));
    assert_eq!(r.expires_at, r.user.created_at + 2_592_000 + 86400);
}

#[test]
fn refresh_refuses_a_subject_that_is_no_uuid() {
    let svc = AuthService::new("k".to_string());
    let u = User {
        id: 5,
        username: "bob".to_string(),
        email: "b@x.io".to_string(),
        roles: vec!["viewer".to_string()],
        created_at: 0,
        last_login: None,
        is_active: true,
    };
    let mut c = svc.generate_claims(&u, 1_700_000_000);
    assert_eq!(c.sub, "00000000-0000-0000-0000-000000000005");
    assert_eq!(c.iat, 1_700_000_000);
    assert_eq!(c.exp, 1_700_086_400);
    c.sub = "not-a-uuid".to_string();
    let e = svc.refresh_from_claims(c).err().unwrap();
    assert!(e.starts_with("无效的用户ID: "));
}

#[test]
fn profiles_fall_back_to_the_admin_defaults() {
    let svc = AuthService::new("k".to_string());
    let u = svc.get_user_by_id(42);
    assert_eq!(u.id, 42);
    assert_eq!(u.username, "admin");
    let p = svc.update_user_profile(42, Some("carol".to_string()), None);
    assert_eq!(p.username, "carol");
    assert_eq!(p.email, "admin@duckhub.com");
    let q = svc.update_user_profile(42, None, Some("c@d.io".to_string()));
    assert_eq!(q.username, "admin");
    assert_eq!(q.email, "c@d.io");
}

#[test]
fn time_ranges_are_sampled_by_plan() {
    assert_eq!(sampling_plan("1h"), (12, 300));
    assert_eq!(sampling_plan("6h"), (24, 900));
    assert_eq!(sampling_plan("24h"), (24, 3600));
    assert_eq!(sampling_plan("7d"), (28, 21600));
    assert_eq!(sampling_plan("30d"), (30, 86400));
    assert_eq!(sampling_plan("2w"), (24, 3600));
    assert_eq!(activity_window_secs("7d"), 604800);
    assert_eq!(activity_window_secs("1h"), 3600);
    assert_eq!(activity_window_secs("bogus"), 86400);
    let ts = sample_times("1h", 1_000_000);
    assert_eq!(ts.len(), 12);
    assert_eq!(ts[0], 1_000_000 - 11 * 300);
    assert_eq!(ts[11], 1_000_000);
}

#[test]
fn demonstration_series_follow_their_formulas() {
    // 86_400 * 10 + 3_600 * 13 + 60 * 7 is 13:07 on day 10.
    let now = 86_400 * 10 + 3_600 * 13 + 60 * 7;
    let (perf, act) = demo_series("24h", now);
    assert_eq!(perf.len(), 24);
    assert_eq!(perf[23].time, "13:07");
    assert_eq!(perf[0].time, "14:07");
    assert_eq!(perf[0].version, 125);
    assert_eq!(perf[9].version, 126);
    assert_eq!(perf[0].avg_response_time, 8500);
    assert_eq!(perf[11].avg_response_time, 8500 + 500);
    assert_eq!(perf[13].throughput, 800 + 50);
    assert_eq!(act[10].created, 0);
    assert_eq!(act[10].deleted, 1);
    assert_eq!(act[7].created, 2);
    assert_eq!(act[7].deleted, 0);
    let m = generate_ducklake_metrics("1h").unwrap();
    assert_eq!(m.active_databases, 3);
    assert_eq!(m.total_snapshots, 127);
    assert_eq!(m.query_performance.len(), 12);
    assert_eq!(m.storage_usage[2].size, 510);
    assert_eq!(m.transaction_stats.total_transactions, 125847);
    let h = generate_performance_history("7d").unwrap();
    assert_eq!(h.len(), 28);
    assert_eq!(h[27].avg_response_time, 7500 + (300 * 27) % 4000);
    assert!(h[0].time.ends_with("+00:00"));
}

fn iface(name: &str, rx: u64, tx: u64) -> NetworkInfo {
    NetworkInfo {
        interface_name: name.to_string(),
        bytes_received: rx,
        bytes_sent: tx,
        packets_received: rx / 100,
        packets_sent: tx / 100,
        errors_on_received: 0,
        errors_on_transmitted: 0,
    }
}

#[test]
fn network_traffic_adds_up_over_interfaces() {
    let t = network_io_totals(&[iface("lo", 1000, 2000), iface("eth0", 500, 300)]);
    assert_eq!(t.bytes_received, 1500);
    assert_eq!(t.bytes_sent, 2300);
    assert_eq!(t.packets_received, 15);
    assert_eq!(t.packets_sent, 23);
    let none = network_io_totals(&[]);
    assert_eq!(none.bytes_received, 0);
}

#[test]
fn processes_are_counted_by_state_text() {
    let states = vec!["Runnable".to_string(), "Sleeping".to_string(), "Zombie".to_string(), "Running".to_string(),
        "Sleeping".to_string()];
    let p = count_processes(&states);
    assert_eq!(p.total_processes, 5);
    assert_eq!(p.running_processes, 1);
    assert_eq!(p.sleeping_processes, 2);
    assert_eq!(p.zombie_processes, 1);
}

#[test]
fn samples_are_evenly_spaced_up_to_now() {
    for range in ["1h", "6h", "24h", "7d", "30d", "x"] {
        let (n, step) = sampling_plan(range);
        let ts = sample_times(range, 5_000_000);
        assert_eq!(ts.len(), n as usize);
        assert_eq!(*ts.last().unwrap(), 5_000_000);
        for w in ts.windows(2) {
            assert_eq!(w[1] - w[0], step);
        }
    }
}

#[test]
fn metrics_at_a_given_time_are_stamped_and_sampled_up_to_it() {
    let m = ducklake_metrics_at("1h", 1_700_000_000, 500_000_000).unwrap();
    assert_eq!(m.timestamp, "2023-11-14T22:13:20.500+00:00");
    assert_eq!(m.query_performance.len(), 12);
    assert_eq!(m.query_performance[11].time, "22:13");
    assert_eq!(m.query_performance[0].time, "21:18");
    assert!(ducklake_metrics_at("1h", -8_334_600_000_000, 0).is_none());
}

#[test]
fn history_at_a_given_time_ends_at_it() {
    let h = performance_history_at("7d", 1_700_000_000, 0).unwrap();
    assert_eq!(h.len(), 28);
    assert_eq!(h[27].time, "2023-11-14T22:13:20+00:00");
    assert_eq!(h[26].time, "2023-11-14T16:13:20+00:00");
    let h = performance_history_at("1h", 1_700_000_000, 123_456_789).unwrap();
    assert_eq!(h[11].time, "2023-11-14T22:13:20.123456789+00:00");
    assert_eq!(h[10].time, "2023-11-14T22:08:20.123456789+00:00");
    assert!(performance_history_at("7d", -8_334_600_000_000, 0).is_none());
}
