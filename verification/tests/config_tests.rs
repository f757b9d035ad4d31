use vote_tracker::config::Config;

#[test]
fn config_new_keeps_values() {
    let c = Config::new("tok".to_string(), "https://grpc.example:443".to_string(), "Vote111".to_string());
    assert_eq!(c.x_token, "tok");
    assert_eq!(c.grpc_url, "https://grpc.example:443");
    assert_eq!(c.vote_account, "Vote111");
}
