use oxidize_auth::error::AuthError;
use oxidize_auth::profile::{
    create_profile_from_pairs, create_profile_from_url, MinecraftProfile, ACCESS_TOKEN_PARAMETER,
    EXPIRES_IN_PARAMETER, IDENTITY_PARAMETER, REFRESH_TOKEN_PARAMETER,
};
use oxidize_auth::query::find_value;
use url::Url;

fn url(text: &str) -> Url {
    Url::parse(text).expect("a URL")
}

fn pairs(items: &[(&str, &str)]) -> Vec<(String, String)> {
    items.iter().map(|(name, value)| (name.to_string(), value.to_string())).collect()
}

fn profile(uuid: &str, access_token: &str, refresh_token: &str, expires_in: u32) -> MinecraftProfile {
    MinecraftProfile {
        uuid: uuid.to_string(),
        access_token: access_token.to_string(),
        refresh_token: refresh_token.to_string(),
        expires_in,
    }
}

#[test]
fn the_parameters_have_the_names_of_the_provider() {
    assert_eq!(IDENTITY_PARAMETER, "minecraftId");
    assert_eq!(ACCESS_TOKEN_PARAMETER, "minecraftToken");
    assert_eq!(REFRESH_TOKEN_PARAMETER, "microsoftRefreshToken");
    assert_eq!(EXPIRES_IN_PARAMETER, "microsoftExpiresIn");
}

#[test]
fn a_complete_redirect_url_gives_its_profile() {
    let redirect = url(
        "https://app.example/callback?minecraftId=UUID&minecraftToken=TOK&microsoftRefreshToken=RTOK&microsoftExpiresIn=3600",
    );
    assert_eq!(create_profile_from_url(&redirect), Ok(profile("UUID", "TOK", "RTOK", 3600)));
}

#[test]
fn the_order_of_the_parameters_does_not_matter() {
    let redirect = url(
        "https://app.example/callback?microsoftExpiresIn=60&microsoftRefreshToken=r&other=1&minecraftToken=t&minecraftId=i",
    );
    assert_eq!(create_profile_from_url(&redirect), Ok(profile("i", "t", "r", 60)));
}

#[test]
fn the_first_of_two_values_wins() {
    let redirect = url(
        "https://app.example/callback?minecraftId=first&minecraftId=second&minecraftToken=t1&minecraftToken=t2&microsoftRefreshToken=r1&microsoftRefreshToken=r2&microsoftExpiresIn=10&microsoftExpiresIn=20",
    );
    assert_eq!(create_profile_from_url(&redirect), Ok(profile("first", "t1", "r1", 10)));
}

#[test]
fn a_first_lifetime_that_is_no_number_is_not_passed_over() {
    let redirect = url(
        "https://app.example/callback?minecraftId=i&minecraftToken=t&microsoftRefreshToken=r&microsoftExpiresIn=soon&microsoftExpiresIn=20",
    );
    assert_eq!(create_profile_from_url(&redirect), Err(AuthError::MissingExpiresIn));
}

#[test]
fn values_are_decoded_as_a_query_string_is() {
    let redirect = url(
        "https://app.example/callback?minecraftId=a%20b&minecraftToken=x%2By%3D%26z&microsoftRefreshToken=one+two&microsoftExpiresIn=%33%36",
    );
    assert_eq!(
        create_profile_from_url(&redirect),
        Ok(profile("a b", "x+y=&z", "one two", 36))
    );
}

#[test]
fn names_are_decoded_too() {
    let redirect = url(
        "https://app.example/callback?minecraft%49d=i&minecraftToken=t&microsoftRefreshToken=r&microsoftExpiresIn=1",
    );
    assert_eq!(create_profile_from_url(&redirect), Ok(profile("i", "t", "r", 1)));
}

#[test]
fn names_are_matched_to_the_letter() {
    let redirect = url(
        "https://app.example/callback?MinecraftId=i&minecraftToken=t&microsoftRefreshToken=r&microsoftExpiresIn=1",
    );
    assert_eq!(create_profile_from_url(&redirect), Err(AuthError::MissingIdentity));
    let redirect = url(
        "https://app.example/callback?minecraftId=i&minecraftToken%20=t&microsoftRefreshToken=r&microsoftExpiresIn=1",
    );
    assert_eq!(create_profile_from_url(&redirect), Err(AuthError::MissingAccessToken));
}

#[test]
fn values_may_be_empty() {
    let redirect = url(
        "https://app.example/callback?minecraftId=&minecraftToken&microsoftRefreshToken=&microsoftExpiresIn=5",
    );
    assert_eq!(create_profile_from_url(&redirect), Ok(profile("", "", "", 5)));
}

#[test]
fn the_fragment_is_no_part_of_the_query() {
    let redirect = url(
        "https://app.example/callback?minecraftId=i&minecraftToken=t&microsoftRefreshToken=r#microsoftExpiresIn=5",
    );
    assert_eq!(create_profile_from_url(&redirect), Err(AuthError::MissingExpiresIn));
}

#[test]
fn a_missing_identity_is_reported() {
    let redirect = url(
        "https://app.example/callback?minecraftToken=TOK&microsoftRefreshToken=RTOK&microsoftExpiresIn=3600",
    );
    assert_eq!(create_profile_from_url(&redirect), Err(AuthError::MissingIdentity));
}

#[test]
fn a_missing_access_token_is_reported() {
    let redirect = url(
        "https://app.example/callback?minecraftId=UUID&microsoftRefreshToken=RTOK&microsoftExpiresIn=3600",
    );
    assert_eq!(create_profile_from_url(&redirect), Err(AuthError::MissingAccessToken));
}

#[test]
fn a_missing_refresh_token_is_reported() {
    let redirect = url(
        "https://app.example/callback?minecraftId=UUID&minecraftToken=TOK&microsoftExpiresIn=3600",
    );
    assert_eq!(create_profile_from_url(&redirect), Err(AuthError::MissingRefreshToken));
}

#[test]
fn a_missing_lifetime_is_reported() {
    let redirect = url(
        "https://app.example/callback?minecraftId=UUID&minecraftToken=TOK&microsoftRefreshToken=RTOK",
    );
    assert_eq!(create_profile_from_url(&redirect), Err(AuthError::MissingExpiresIn));
}

#[test]
fn a_lifetime_that_is_no_number_is_reported_as_missing() {
    for lifetime in ["", "soon", "-1", "3600s", "1.5", "4294967296", "%20" ] {
        let text = format!(
            "https://app.example/callback?minecraftId=UUID&minecraftToken=TOK&microsoftRefreshToken=RTOK&microsoftExpiresIn={}",
            lifetime
        );
        assert_eq!(create_profile_from_url(&url(&text)), Err(AuthError::MissingExpiresIn));
    }
}

#[test]
fn the_largest_lifetime_is_read() {
    let redirect = url(
        "https://app.example/callback?minecraftId=UUID&minecraftToken=TOK&microsoftRefreshToken=RTOK&microsoftExpiresIn=4294967295",
    );
    assert_eq!(create_profile_from_url(&redirect), Ok(profile("UUID", "TOK", "RTOK", u32::MAX)));
}

#[test]
fn a_url_without_a_query_lacks_the_identity() {
    assert_eq!(
        create_profile_from_url(&url("https://app.example/callback")),
        Err(AuthError::MissingIdentity)
    );
    assert_eq!(
        create_profile_from_url(&url("https://app.example/callback?")),
        Err(AuthError::MissingIdentity)
    );
}

#[test]
fn of_several_missing_parameters_the_first_is_reported() {
    assert_eq!(
        create_profile_from_pairs(&pairs(&[("microsoftExpiresIn", "1")])),
        Err(AuthError::MissingIdentity)
    );
    assert_eq!(
        create_profile_from_pairs(&pairs(&[("minecraftId", "i"), ("microsoftExpiresIn", "x")])),
        Err(AuthError::MissingAccessToken)
    );
    assert_eq!(
        create_profile_from_pairs(&pairs(&[("minecraftId", "i"), ("minecraftToken", "t")])),
        Err(AuthError::MissingRefreshToken)
    );
}

#[test]
fn each_missing_parameter_is_reported_whatever_else_is_there() {
    let all = [
        ("minecraftId", "i", AuthError::MissingIdentity),
        ("minecraftToken", "t", AuthError::MissingAccessToken),
        ("microsoftRefreshToken", "r", AuthError::MissingRefreshToken),
        ("microsoftExpiresIn", "9", AuthError::MissingExpiresIn),
    ];
    let extras: [&[(&str, &str)]; 3] = [&[], &[("state", "xyz")], &[("a", "1"), ("b", ""), ("a", "2")]];
    for missing in 0..all.len() {
        for extra in extras {
            let mut items: Vec<(&str, &str)> = extra.to_vec();
            for (at, (name, value, _)) in all.iter().enumerate() {
                if at != missing {
                    items.push((name, value));
                }
            }
            assert_eq!(create_profile_from_pairs(&pairs(&items)), Err(all[missing].2.clone()));
            items.reverse();
            assert_eq!(create_profile_from_pairs(&pairs(&items)), Err(all[missing].2.clone()));
        }
    }
}

#[test]
fn pairs_give_the_same_as_the_url_that_holds_them() {
    let items = pairs(&[
        ("minecraftId", "abc"),
        ("minecraftToken", "t1"),
        ("microsoftRefreshToken", "r1"),
        ("microsoftExpiresIn", "3600"),
    ]);
    let redirect = url(
        "https://app.example/callback?minecraftId=abc&minecraftToken=t1&microsoftRefreshToken=r1&microsoftExpiresIn=3600",
    );
    assert_eq!(create_profile_from_pairs(&items), create_profile_from_url(&redirect));
    assert_eq!(create_profile_from_pairs(&items), Ok(profile("abc", "t1", "r1", 3600)));
}

#[test]
fn no_pairs_give_no_identity() {
    assert_eq!(create_profile_from_pairs(&Vec::new()), Err(AuthError::MissingIdentity));
}

#[test]
fn a_value_is_found_under_its_name() {
    let items = pairs(&[("a", "1"), ("b", "2"), ("a", "3"), ("", "4")]);
    assert_eq!(find_value(&items, "a"), Some("1".to_string()));
    assert_eq!(find_value(&items, "b"), Some("2".to_string()));
    assert_eq!(find_value(&items, ""), Some("4".to_string()));
    assert_eq!(find_value(&items, "c"), None);
    assert_eq!(find_value(&items, "A"), None);
    assert_eq!(find_value(&Vec::new(), "a"), None);
}
