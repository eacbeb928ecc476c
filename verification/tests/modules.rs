use hello_server::define_multi_modules;
use hello_server::module1;
use hello_server::module2;
use hello_server::module3;

#[test]
fn each_module_announces_itself() {
    assert_eq!(module1::print(), "this is module1");
    assert_eq!(
        module2::print(),
        vec![
            "this is module2".to_string(),
            "this is module2/submodule1".to_string(),
            "this is module2/submodule2".to_string(),
        ]
    );
    assert_eq!(
        module3::print(),
        vec![
            "this is module1".to_string(),
            "this is module3/submodule1".to_string(),
        ]
    );
    assert_eq!(module2::submodule1::print_m2s1(), "this is module2/submodule1");
    assert_eq!(module2::submodule2::print_m2s2(), "this is module2/submodule2");
    assert_eq!(module3::submodule1::print_m3s1(), "this is module3/submodule1");
}

#[test]
fn demo_collects_every_module_line_in_order() {
    assert_eq!(
        define_multi_modules(),
        vec![
            "this is module1".to_string(),
            "this is module2".to_string(),
            "this is module2/submodule1".to_string(),
            "this is module2/submodule2".to_string(),
            "this is module1".to_string(),
            "this is module3/submodule1".to_string(),
            "this is module3/submodule1".to_string(),
        ]
    );
}
