use goodwe_web::crypto::{compute_signature, hash_password, password_digest, sign_digest};

#[test]
fn signatures_of_known_requests() {
    assert_eq!(
        compute_signature("", "", 0),
        "OGFjY2I2NDk5YzQ0OTQyM2Q2NWE3MjViYjczYmVhMDYyYmFkMjFjMjY1YmZlNTQ0YzJjZWMzYjRjNTMyMjcwYUAw"
    );
    assert_eq!(
        compute_signature("user-1", "tok", 1778955297376),
        "ZDM5NDFlNzI5ZDhhYzU1MmEzNjMxMDU4MWE3ZDg4ZTYzNzcyZjNjZmVhZDVjYTZlMjM2OWU2NDNiYzAzNDQzY0AxNzc4OTU1Mjk3Mzc2"
    );
    assert_eq!(
        compute_signature("ünï", "t@k", u64::MAX),
        "OTJhNjdmMTdkZGNkMTAxMzA0MzgyODRjMTY3NjdlMzBhZTg5YzE3MGQzNTZlMTE5ZTQ1NzgyODU3MDEyN2RhNEAxODQ0Njc0NDA3MzcwOTU1MTYxNQ=="
    );
}

#[test]
fn signature_of_a_given_digest() {
    let digest = [
        211, 148, 30, 114, 157, 138, 197, 82, 163, 99, 16, 88, 26, 125, 136, 230, 55, 114, 243, 207,
        234, 213, 202, 110, 35, 105, 230, 67, 188, 3, 68, 60,
    ];
    assert_eq!(
        sign_digest(&digest, 1778955297376),
        compute_signature("user-1", "tok", 1778955297376)
    );
}

#[test]
fn a_signature_shows_its_time() {
    let a = compute_signature("user-1", "tok", 1);
    let b = compute_signature("user-1", "tok", 2);
    let c = compute_signature("user-2", "tok", 1);
    assert_ne!(a, b);
    assert_ne!(a, c);
    assert_eq!(sign_digest(&[0; 32], 5), sign_digest(&[0; 32], 5));
    assert_ne!(sign_digest(&[0; 32], 5), sign_digest(&[0; 32], 50));
}

#[test]
fn passwords_of_known_digest() {
    assert_eq!(hash_password(""), "ZDQxZDhjZDk4ZjAwYjIwNGU5ODAwOTk4ZWNmODQyN2U=");
    assert_eq!(hash_password("secret"), "NWViZTIyOTRlY2QwZTBmMDhlYWI3NjkwZDJhNmVlNjk=");
    assert_eq!(hash_password("pässword"), "OGUxODQzMDMzYTBmNmVlNTJlMmY2MThhYThlYmJlZjQ=");
}

#[test]
fn password_encoding_follows_the_digest() {
    let digest = [94, 190, 34, 148, 236, 208, 224, 240, 142, 171, 118, 144, 210, 166, 238, 105];
    assert_eq!(password_digest(&digest), hash_password("secret"));
    assert_ne!(password_digest(&[0; 16]), password_digest(&[1; 16]));
}
