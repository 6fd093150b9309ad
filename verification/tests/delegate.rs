use libretro_frontend::delegate::CoreDelegate;
use libretro_frontend::delegate::CoreError;
use libretro_frontend::delegate::mandatory_symbols;

#[test]
fn load_with_nonexistent_path_gives_load_error() {
    let path = String::from("/nonexistent/path/to/core_that_is_not_there.so");
    let result = CoreDelegate::load(path);
    match result {
        Err(CoreError::Load(reported)) => {
            assert_eq!(reported, "/nonexistent/path/to/core_that_is_not_there.so");
        }
        Err(other) => panic!("expected a load error, got {:?}", other),
        Ok(_) => panic!("loading a nonexistent path must not succeed"),
    }
}

#[test]
fn load_error_is_distinct_from_symbol_error() {
    let load = CoreError::Load(String::from("a"));
    let symbol = CoreError::Symbol(String::from("retro_run"));
    assert!(matches!(load, CoreError::Load(_)));
    assert!(matches!(symbol, CoreError::Symbol(_)));
    match symbol {
        CoreError::Symbol(name) => assert_eq!(name, "retro_run"),
        CoreError::Load(_) => panic!("variant mixup"),
    }
}

#[test]
fn mandatory_symbols_list_the_fixed_entry_points() {
    let symbols = mandatory_symbols();
    assert_eq!(
        symbols,
        vec!["retro_set_environment", "retro_init", "retro_run", "retro_deinit"]
    );
}
