use serde_dson::hirgen::HirGenError;
use uuid::Uuid;

#[test]
fn hirgen_errors_compare_by_their_fields() {
    let a = HirGenError::UnknownTypeAlias {
        alias: "x".into(),
        span: 1..3,
    };
    let b = HirGenError::UnknownTypeAlias {
        alias: "x".into(),
        span: 1..3,
    };
    assert_eq!(a, b);
    assert_ne!(a, HirGenError::ClassExpected { span: 1..3 });
    let card = HirGenError::UnexpectedCard {
        ident: Uuid::from_u128(7),
    };
    assert_eq!(
        card,
        HirGenError::UnexpectedCard {
            ident: Uuid::from_u128(7)
        }
    );
}
