use s3_signer::{resolve, EntryPoint};

fn prefix_scoped(prefix: &str) -> Option<EntryPoint> {
    Some(EntryPoint::PrefixScoped { prefix: prefix.to_string() })
}

fn resource_scoped(prefix: &str, tabular_id: &str) -> Option<EntryPoint> {
    Some(EntryPoint::ResourceScoped {
        prefix: prefix.to_string(),
        tabular_id: tabular_id.to_string(),
    })
}

#[test]
fn unscoped_path_resolves() {
    assert_eq!(resolve("POST", "/aws/s3/sign"), Some(EntryPoint::Unscoped));
}

#[test]
fn prefix_scoped_path_resolves() {
    assert_eq!(resolve("POST", "/warehouse-42/v1/aws/s3/sign"), prefix_scoped("warehouse-42"));
}

#[test]
fn resource_scoped_path_resolves() {
    assert_eq!(
        resolve("POST", "/signer/warehouse-42/tabular-id/123e4567-e89b-12d3-a456-426614174000/v1/aws/s3/sign"),
        resource_scoped("warehouse-42", "123e4567-e89b-12d3-a456-426614174000"),
    );
}

#[test]
fn resource_scoped_path_keeps_any_identifier_text() {
    assert_eq!(
        resolve("POST", "/signer/w/tabular-id/not-a-uuid/v1/aws/s3/sign"),
        resource_scoped("w", "not-a-uuid"),
    );
}

#[test]
fn single_character_variables_resolve() {
    assert_eq!(resolve("POST", "/p/v1/aws/s3/sign"), prefix_scoped("p"));
    assert_eq!(resolve("POST", "/signer/p/tabular-id/t/v1/aws/s3/sign"), resource_scoped("p", "t"));
}

#[test]
fn prefix_may_be_a_word_of_the_grammar() {
    assert_eq!(resolve("POST", "/signer/v1/aws/s3/sign"), prefix_scoped("signer"));
    assert_eq!(resolve("POST", "/aws/v1/aws/s3/sign"), prefix_scoped("aws"));
    assert_eq!(resolve("POST", "/v1/v1/aws/s3/sign"), prefix_scoped("v1"));
    assert_eq!(
        resolve("POST", "/signer/signer/tabular-id/tabular-id/v1/aws/s3/sign"),
        resource_scoped("signer", "tabular-id"),
    );
}

#[test]
fn variables_are_counted_in_characters() {
    assert_eq!(resolve("POST", "/wärehouse/v1/aws/s3/sign"), prefix_scoped("wärehouse"));
    assert_eq!(
        resolve("POST", "/signer/倉庫/tabular-id/表/v1/aws/s3/sign"),
        resource_scoped("倉庫", "表"),
    );
}

#[test]
fn variables_are_taken_as_they_stand() {
    assert_eq!(resolve("POST", "/a%2Fb/v1/aws/s3/sign"), prefix_scoped("a%2Fb"));
    assert_eq!(resolve("POST", "/a b/v1/aws/s3/sign"), prefix_scoped("a b"));
}

#[test]
fn empty_variables_do_not_resolve() {
    assert_eq!(resolve("POST", "//v1/aws/s3/sign"), None);
    assert_eq!(resolve("POST", "/signer//tabular-id/t/v1/aws/s3/sign"), None);
    assert_eq!(resolve("POST", "/signer/p/tabular-id//v1/aws/s3/sign"), None);
}

#[test]
fn variables_hold_no_slash() {
    assert_eq!(resolve("POST", "/a/b/v1/aws/s3/sign"), None);
    assert_eq!(resolve("POST", "/signer/a/b/tabular-id/t/v1/aws/s3/sign"), None);
    assert_eq!(resolve("POST", "/signer/p/tabular-id/t/u/v1/aws/s3/sign"), None);
}

#[test]
fn other_methods_do_not_resolve() {
    for method in ["GET", "PUT", "DELETE", "PATCH", "HEAD", "post", "Post", " POST", "POSTED", ""] {
        assert_eq!(resolve(method, "/aws/s3/sign"), None);
        assert_eq!(resolve(method, "/warehouse-42/v1/aws/s3/sign"), None);
        assert_eq!(resolve(method, "/signer/p/tabular-id/t/v1/aws/s3/sign"), None);
    }
}

#[test]
fn other_paths_do_not_resolve() {
    assert_eq!(resolve("POST", ""), None);
    assert_eq!(resolve("POST", "/"), None);
    assert_eq!(resolve("POST", "aws/s3/sign"), None);
    assert_eq!(resolve("POST", "/aws/s3/sign/"), None);
    assert_eq!(resolve("POST", "/aws/s3/signs"), None);
    assert_eq!(resolve("POST", "/aws/s3/sig"), None);
    assert_eq!(resolve("POST", "/AWS/S3/SIGN"), None);
    assert_eq!(resolve("POST", "/v1/aws/s3/sign"), None);
    assert_eq!(resolve("POST", "/warehouse-42/v1/aws/s3/sign/"), None);
    assert_eq!(resolve("POST", "/warehouse-42/v2/aws/s3/sign"), None);
    assert_eq!(resolve("POST", "warehouse-42/v1/aws/s3/sign"), None);
    assert_eq!(resolve("POST", "/signer/p/tabular-id/t"), None);
    assert_eq!(resolve("POST", "/signer/p/tabular_id/t/v1/aws/s3/sign"), None);
    assert_eq!(resolve("POST", "/signer/p/tabular-id/t/v1/aws/s3/sign/"), None);
    assert_eq!(resolve("POST", "/signer/p/v1/aws/s3/sign"), None);
    assert_eq!(resolve("POST", "/signer/"), None);
    assert_eq!(resolve("POST", "/signer/p/tabular-id/"), None);
}
