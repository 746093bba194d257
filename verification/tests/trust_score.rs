use backend::models::user::user::User as ProviderUser;
use backend::models::user::User;

#[test]
fn trust_score_table() {
    let expected = [100, 80, 70, 50, 40, 25, 10, 5, 5];
    for (count, score) in expected.iter().enumerate() {
        assert_eq!(User::calculate_trust_score(count as i64), *score);
    }
    assert_eq!(User::calculate_trust_score(1000), 5);
    assert_eq!(User::calculate_trust_score(-1), 5);
}

#[test]
fn trust_score_table_of_provider_users() {
    let expected = [100, 85, 70, 55, 35, 22, 14, 6, 6];
    for (count, score) in expected.iter().enumerate() {
        assert_eq!(ProviderUser::calculate_trust_score(count as i64), *score);
    }
    assert_eq!(ProviderUser::calculate_trust_score(i64::MIN), 6);
}

#[test]
fn more_reports_never_raise_the_score() {
    for a in 0..30i64 {
        for b in a..30i64 {
            assert!(User::calculate_trust_score(a) >= User::calculate_trust_score(b));
            assert!(ProviderUser::calculate_trust_score(a) >= ProviderUser::calculate_trust_score(b));
        }
    }
}

#[test]
fn each_of_the_first_seven_reports_lowers_the_score() {
    for a in 0..7i64 {
        assert!(User::calculate_trust_score(a) > User::calculate_trust_score(a + 1));
        assert!(ProviderUser::calculate_trust_score(a) > ProviderUser::calculate_trust_score(a + 1));
    }
}

#[test]
fn negative_counts_fall_outside_the_monotone_scale() {
    assert!(User::calculate_trust_score(-1) < User::calculate_trust_score(0));
}
