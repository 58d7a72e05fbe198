use sos21_use_case::export_projects::{
    bool_field, contains_attribute, run, write_record_with_times, Error, Input,
    InputCategoryNames, InputFieldNames, PersonName, ProjectRecord,
};
use sos21_use_case::flow::Found;
use sos21_use_case::model::{ProjectAttribute, ProjectCategory};
use sos21_use_case::UseCaseError;

fn s(x: &str) -> String {
    x.to_string()
}

fn no_fields() -> InputFieldNames {
    InputFieldNames {
        id: None,
        code: None,
        created_at: None,
        updated_at: None,
        owner_id: None,
        owner_first_name: None,
        owner_last_name: None,
        owner_full_name: None,
        owner_kana_first_name: None,
        owner_kana_last_name: None,
        owner_kana_full_name: None,
        subowner_id: None,
        subowner_first_name: None,
        subowner_last_name: None,
        subowner_full_name: None,
        subowner_kana_first_name: None,
        subowner_kana_last_name: None,
        subowner_kana_full_name: None,
        name: None,
        kana_name: None,
        group_name: None,
        kana_group_name: None,
        description: None,
        category: None,
        attribute_academic: None,
        attribute_artistic: None,
        attribute_committee: None,
        attribute_outdoor: None,
        attribute_indoor: None,
    }
}

fn all_fields() -> InputFieldNames {
    InputFieldNames {
        id: Some(s("id")),
        code: Some(s("code")),
        created_at: Some(s("created")),
        updated_at: Some(s("updated")),
        owner_id: Some(s("oid")),
        owner_first_name: Some(s("ofn")),
        owner_last_name: Some(s("oln")),
        owner_full_name: Some(s("ofull")),
        owner_kana_first_name: Some(s("okfn")),
        owner_kana_last_name: Some(s("okln")),
        owner_kana_full_name: Some(s("okfull")),
        subowner_id: Some(s("sid")),
        subowner_first_name: Some(s("sfn")),
        subowner_last_name: Some(s("sln")),
        subowner_full_name: Some(s("sfull")),
        subowner_kana_first_name: Some(s("skfn")),
        subowner_kana_last_name: Some(s("skln")),
        subowner_kana_full_name: Some(s("skfull")),
        name: Some(s("name")),
        kana_name: Some(s("kname")),
        group_name: Some(s("group")),
        kana_group_name: Some(s("kgroup")),
        description: Some(s("desc")),
        category: Some(s("cat")),
        attribute_academic: Some(s("academic")),
        attribute_artistic: Some(s("artistic")),
        attribute_committee: Some(s("committee")),
        attribute_outdoor: Some(s("outdoor")),
        attribute_indoor: Some(s("indoor")),
    }
}

fn input(field_names: InputFieldNames) -> Input {
    Input {
        field_names,
        category_names: InputCategoryNames {
            general: s("General"),
            cooking_requiring_preparation_area: s("CookingArea"),
            cooking: s("Cooking"),
            food: s("Food"),
            stage: s("Stage"),
        },
    }
}

fn person(first: &str, last: &str) -> PersonName {
    PersonName { first: s(first), last: s(last) }
}

fn project() -> ProjectRecord {
    ProjectRecord {
        id: 0x0123456789abcdef0123456789abcdef,
        code: s("G123"),
        created_at: 0,
        updated_at: 86400,
        owner_id: s("owner"),
        owner_name: person("Taro", "Yamada"),
        owner_kana_name: person("タロウ", "ヤマダ"),
        subowner_id: s("sub"),
        subowner_name: person("Hanako", "Sato"),
        subowner_kana_name: person("ハナコ", "サトウ"),
        name: s("Stall"),
        kana_name: s("スタール"),
        group_name: s("Club"),
        kana_group_name: s("クラブ"),
        description: s("We sell \"tea\""),
        category: ProjectCategory::Food,
        attributes: vec![ProjectAttribute::Academic, ProjectAttribute::Indoor],
    }
}

fn text(bytes: Vec<u8>) -> String {
    String::from_utf8(bytes).unwrap()
}

#[test]
fn test_export_projects_all_columns() {
    let out = run(&input(all_fields()), true, vec![Found { entity: project(), visible: true }])
        .ok()
        .unwrap();
    assert_eq!(
        text(out),
        "id,code,created,updated,oid,ofn,oln,ofull,okfn,okln,okfull,sid,sfn,sln,sfull,skfn,skln,skfull,name,kname,group,kgroup,desc,cat,academic,artistic,committee,outdoor,indoor\r\n\
         01234567-89ab-cdef-0123-456789abcdef,G123,1970-01-01 09:00:00,1970-01-02 09:00:00,owner,Taro,Yamada,Yamada Taro,タロウ,ヤマダ,ヤマダ タロウ,\
         sub,Hanako,Sato,Sato Hanako,ハナコ,サトウ,サトウ ハナコ,Stall,スタール,Club,クラブ,\"We sell \"\"tea\"\"\",Food,TRUE,FALSE,FALSE,FALSE,TRUE\r\n"
    );
}

#[test]
fn test_export_projects_chosen_columns() {
    let mut fields = no_fields();
    fields.id = Some(s("ID"));
    fields.category = Some(s("Category"));
    fields.attribute_outdoor = Some(s("Outdoor"));
    let mut second = project();
    second.id = 1;
    second.category = ProjectCategory::CookingRequiringPreparationArea;
    second.attributes = vec![ProjectAttribute::Outdoor];
    let projects = vec![
        Found { entity: project(), visible: true },
        Found { entity: second, visible: true },
    ];
    let out = run(&input(fields), true, projects).ok().unwrap();
    assert_eq!(
        text(out),
        "ID,Category,Outdoor\r\n\
         01234567-89ab-cdef-0123-456789abcdef,Food,FALSE\r\n\
         00000000-0000-0000-0000-000000000001,CookingArea,TRUE\r\n"
    );
}

#[test]
fn test_export_projects_insufficient_permissions() {
    let res = run(&input(all_fields()), false, vec![Found { entity: project(), visible: true }]);
    assert!(matches!(res, Err(UseCaseError::UseCase(Error::InsufficientPermissions))));
}

#[test]
fn test_export_projects_invisible_project_fails() {
    let res = run(&input(all_fields()), true, vec![Found { entity: project(), visible: false }]);
    assert!(matches!(res, Err(UseCaseError::Internal(_))));
}

#[test]
fn test_bool_field() {
    assert_eq!(bool_field(true), "TRUE");
    assert_eq!(bool_field(false), "FALSE");
}

#[test]
fn test_contains_attribute() {
    let attributes = vec![ProjectAttribute::Artistic, ProjectAttribute::Committee];
    assert!(contains_attribute(&attributes, ProjectAttribute::Committee));
    assert!(!contains_attribute(&attributes, ProjectAttribute::Outdoor));
    assert!(!contains_attribute(&vec![], ProjectAttribute::Academic));
}

#[test]
fn test_write_record_with_given_times() {
    let mut fields = no_fields();
    fields.code = Some(s("code"));
    fields.created_at = Some(s("created"));
    fields.updated_at = Some(s("updated"));
    let record = write_record_with_times(&input(fields), &project(), s("C"), s("U"));
    assert_eq!(record, vec!["G123", "C", "U"]);
}
