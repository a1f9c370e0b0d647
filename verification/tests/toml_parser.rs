use gxib::utils::toml_parser::{
    CargoToml, CargoTomlError, DEPENDENCIES_STR, FEATURES_STR, PACKAGE_STR, VERSION_STR,
};
use gxib::utils::toml_value::TomlValue;

fn render(v: &TomlValue) -> String {
    v.to_toml_string().unwrap()
}

#[test]
fn test_parse_cargo_toml() {
    //no dependency
    {
        let cargo_toml =
            CargoToml::serialise(format!("[{}]\nname=\"\"", PACKAGE_STR).as_bytes()).unwrap();
        assert_eq!(
            render(&cargo_toml),
            format!(
                "[{}]\nname = \"\"\n[{}.gxi]\n{} = \"\"\n{} = []\n",
                PACKAGE_STR, DEPENDENCIES_STR, VERSION_STR, FEATURES_STR
            )
        )
    }
    {
        let test_str = format!(
            "[{}]\nname = \"\"\n\n[{dep}]\nk = \"\"\n\n[{dep}.gxi]\n{ver} = \"\"\n{fea} = []\n",
            PACKAGE_STR,
            dep = DEPENDENCIES_STR,
            ver = VERSION_STR,
            fea = FEATURES_STR
        );
        //with dependency
        {
            let cargo_toml = CargoToml::serialise(
                format!(
                    r#"
                        [{}]
                        name = ""

                        [{}]
                        k = ""
                        gxi = ""
                    "#,
                    PACKAGE_STR, DEPENDENCIES_STR
                )
                .as_bytes(),
            )
            .unwrap();
            assert_eq!(render(&cargo_toml), test_str);
        }
        {
            let cargo_toml = CargoToml::serialise(
                format!(
                    r#"
                        [{}]
                        name = ""

                        [{}]
                        k = ""
                        gxi = {{ {} = "" }}
                    "#,
                    PACKAGE_STR, DEPENDENCIES_STR, VERSION_STR
                )
                .as_bytes(),
            )
            .unwrap();
            assert_eq!(render(&cargo_toml), test_str);
        }
        {
            let cargo_toml = CargoToml::serialise(
                format!(
                    r#"
                        [{}]
                        name = ""

                        [{}]
                        k = ""
                        gxi = {{}}
                    "#,
                    PACKAGE_STR, DEPENDENCIES_STR
                )
                .as_bytes(),
            )
            .unwrap();
            assert_eq!(render(&cargo_toml), test_str);
        }
    }
    // check extra props
    {
        let test_str = format!(
            "[{}]\nname = \"\"\n[{}.gxi]\n{} = \"0.0.1\"\nhello = [\"foo\"]\n{} = []\n",
            PACKAGE_STR, DEPENDENCIES_STR, VERSION_STR, FEATURES_STR
        );
        {
            let cargo_toml = CargoToml::serialise(
                format!(
                    r#"
                        [{}]
                        name = ""

                        [{}.gxi]
                        {} = "0.0.1"
                        hello = [ "foo" ]
                    "#,
                    PACKAGE_STR, DEPENDENCIES_STR, VERSION_STR
                )
                .as_bytes(),
            )
            .unwrap();
            assert_eq!(render(&cargo_toml), test_str);
        }
        {
            let cargo_toml = CargoToml::serialise(
                format!(
                    r#"
                        [{}]
                        name = ""

                        [{}]
                        gxi = {{ {} = "0.0.1", hello = [ "foo" ] }}
                    "#,
                    PACKAGE_STR, DEPENDENCIES_STR, VERSION_STR
                )
                .as_bytes(),
            )
            .unwrap();
            assert_eq!(render(&cargo_toml), test_str);
        }
    }
    // features check
    {
        let cargo_toml = CargoToml::serialise(
            format!(
                r#"
                    [{}]
                    name = ""

                    [{}.gxi]
                    features = ["desktop","web","async","web","desktop"]
                "#,
                PACKAGE_STR, DEPENDENCIES_STR
            )
            .as_bytes(),
        )
        .unwrap();
        assert_eq!(
            render(&cargo_toml),
            format!(
                "[{}]\nname = \"\"\n[{}.gxi]\n{} = [\"async\"]\n{} = \"\"\n",
                PACKAGE_STR, DEPENDENCIES_STR, FEATURES_STR, VERSION_STR
            )
        );
    }
}

#[test]
fn serialise_reports_missing_package_name() {
    let r = CargoToml::serialise(b"[package]\nversion = \"1\"\n");
    assert!(matches!(r, Err(CargoTomlError::MissingPackageName)));
}

fn manifest(text: &str) -> CargoToml {
    CargoToml::from_file_contents("Cargo.toml".to_string(), text.as_bytes()).unwrap()
}

#[test]
fn from_file_contents_keeps_name_string() {
    let c = manifest("[package]\nname = \"app\"\n");
    assert_eq!(c.package_name(), "app");
    assert_eq!(c.path(), "Cargo.toml");
    assert_eq!(
        c.to_toml_string().unwrap(),
        "[package]\nname = \"app\"\n[dependencies.gxi]\nversion = \"\"\nfeatures = []\n"
    );
}

#[test]
fn add_features_appends_to_gxi_features() {
    let mut c = manifest("[package]\nname = \"app\"\n[dependencies.gxi]\nfeatures = [\"async\"]\n");
    c.add_features(vec!["web".to_string(), "extra".to_string()]);
    assert_eq!(
        c.to_toml_string().unwrap(),
        "[package]\nname = \"app\"\n[dependencies.gxi]\nfeatures = [\"async\", \"web\", \"extra\"]\nversion = \"\"\n"
    );
}

#[test]
fn platform_feature_is_removed_on_next_read() {
    let mut c = manifest("[package]\nname = \"app\"\n[dependencies]\ngxi = \"0.1\"\n");
    let first = c.to_toml_string().unwrap();
    c.add_features(vec!["web".to_string(), "desktop".to_string()]);
    let written = c.to_toml_string().unwrap();
    assert!(written.contains("\"web\""));
    let again = manifest(&written);
    assert_eq!(again.to_toml_string().unwrap(), first);
}

#[test]
fn serialise_is_idempotent() {
    let input = "[package]\nname = \"x\"\nedition = \"2021\"\n\n[dependencies]\nserde = \"1\"\ngxi = { version = \"0.3\", features = [\"web\", \"async\"] }\n";
    let once = CargoToml::serialise(input.as_bytes()).unwrap().to_toml_string().unwrap();
    let twice = CargoToml::serialise(once.as_bytes()).unwrap().to_toml_string().unwrap();
    assert_eq!(once, twice);
    assert_eq!(
        once,
        "[package]\nname = \"x\"\nedition = \"2021\"\n\n[dependencies]\nserde = \"1\"\n\n[dependencies.gxi]\nversion = \"0.3\"\nfeatures = [\"async\"]\n"
    );
}

#[test]
fn serialise_errors() {
    assert!(matches!(CargoToml::serialise(b"[package"), Err(CargoTomlError::Parse(_))));
    assert!(matches!(CargoToml::serialise(b"package = 1\n"), Err(CargoTomlError::PackageNotTable)));
    assert!(matches!(CargoToml::serialise(b"[package]\n"), Err(CargoTomlError::MissingPackageName)));
    assert!(matches!(
        CargoToml::serialise(b"dependencies = 3\n[package]\nname = \"a\"\n"),
        Err(CargoTomlError::DependenciesNotTable)
    ));
    assert!(matches!(
        CargoToml::serialise(b"[package]\nname = \"a\"\n[dependencies]\ngxi = 1\n"),
        Err(CargoTomlError::GxiNotTable)
    ));
    assert!(matches!(
        CargoToml::serialise(b"[package]\nname = \"a\"\n[dependencies.gxi]\nfeatures = \"web\"\n"),
        Err(CargoTomlError::FeaturesNotArray)
    ));
    assert!(matches!(
        CargoToml::serialise(b"[package]\nname = \"a\"\n[dependencies.gxi]\nfeatures = [\"web\", 2]\n"),
        Err(CargoTomlError::FeatureNotString)
    ));
    let numbered =
        CargoToml::from_file_contents("Cargo.toml".to_string(), b"[package]\nname = 3\n").unwrap();
    assert_eq!(numbered.package_name(), "3");
    let msg = CargoTomlError::MissingPackageName.message();
    assert_eq!(msg, "expected name under table [package] in Cargo.toml");
}

#[test]
fn normalise_keeps_other_values() {
    let input = "title = 1.5\nwhen = 1979-05-27T07:32:00Z\n[package]\nname = \"n\"\n";
    let v = CargoToml::serialise(input.as_bytes()).unwrap();
    assert_eq!(
        render(&v),
        "title = 1.5\nwhen = 1979-05-27T07:32:00Z\n\n[package]\nname = \"n\"\n[dependencies.gxi]\nversion = \"\"\nfeatures = []\n"
    );
}

#[test]
fn normalise_on_built_value() {
    let root = TomlValue::Table(vec![(
        "package".to_string(),
        TomlValue::Table(vec![("name".to_string(), TomlValue::string("a"))]),
    )]);
    let v = CargoToml::normalise(root).unwrap();
    assert_eq!(
        render(&v),
        "[package]\nname = \"a\"\n[dependencies.gxi]\nversion = \"\"\nfeatures = []\n"
    );
}
