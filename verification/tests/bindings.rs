//! Binding-export check: compiling the test target against the
//! library's exported types is the point, the assertion a formality.
#[allow(unused_imports)]
use financial_golf::UserDB;

#[test]
fn export_bindings() {
    // Enforces compilation of exported files on cargo test
    assert!(true);
}
