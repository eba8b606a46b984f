use execd::listing::after_page;
use execd::model::{
    BuildSpec, Resource, ResourceSpec, RunMetadata, SourceCode,
};

fn resource(name: &str) -> Resource {
    Resource {
        metadata: RunMetadata {
            name: Some(name.to_string()),
            generate_name: None,
            namespace: "ns".to_string(),
            creation_timestamp: None,
        },
        spec: ResourceSpec::Build(BuildSpec {
            base_image: "b".to_string(),
            description: None,
            source_code: SourceCode {
                branch: None,
                build_command: None,
                commit: None,
                dependencies: None,
                dependency_command: None,
                entrypoint: "e".to_string(),
                url: "u".to_string(),
            },
        }),
        status: None,
    }
}

#[test]
fn pages_are_joined_in_their_order() {
    let (listing, token) = after_page(
        vec![resource("a"), resource("b")],
        vec![resource("c")],
        Some("page-3".to_string()),
    );
    assert_eq!(listing, vec![resource("a"), resource("b"), resource("c")]);
    assert_eq!(token, Some("page-3".to_string()));
    let (listing, token) = after_page(listing, vec![resource("d"), resource("e")], None);
    assert_eq!(
        listing,
        vec![resource("a"), resource("b"), resource("c"), resource("d"), resource("e")]
    );
    assert_eq!(token, None);
}

#[test]
fn listing_is_whole_without_a_token_or_with_an_empty_one() {
    assert_eq!(after_page(vec![], vec![resource("a")], None), (vec![resource("a")], None));
    assert_eq!(
        after_page(vec![], vec![resource("a")], Some(String::new())),
        (vec![resource("a")], None)
    );
    assert_eq!(after_page(vec![], vec![], Some(" ".to_string())), (vec![], Some(" ".to_string())));
    assert_eq!(after_page(vec![resource("a")], vec![], None), (vec![resource("a")], None));
}
