use sos21_use_case::export_users::{
    full_name_text, phone_number_text, run, write_record_with_time, Error, Input,
    InputCategoryNames, InputFieldNames, InputRoleNames, UserRecord,
};
use sos21_use_case::flow::Found;
use sos21_use_case::model::{UserCategory, UserRole};
use sos21_use_case::UseCaseError;

fn s(x: &str) -> String {
    x.to_string()
}

fn all_fields() -> InputFieldNames {
    InputFieldNames {
        id: Some(s("id")),
        created_at: Some(s("created_at")),
        first_name: Some(s("first_name")),
        last_name: Some(s("last_name")),
        full_name: Some(s("full_name")),
        kana_first_name: Some(s("kana_first_name")),
        kana_last_name: Some(s("kana_last_name")),
        kana_full_name: Some(s("kana_full_name")),
        email: Some(s("email")),
        phone_number: Some(s("phone_number")),
        affiliation: Some(s("affiliation")),
        role: Some(s("role")),
        category: Some(s("category")),
    }
}

fn no_fields() -> InputFieldNames {
    InputFieldNames {
        id: None,
        created_at: None,
        first_name: None,
        last_name: None,
        full_name: None,
        kana_first_name: None,
        kana_last_name: None,
        kana_full_name: None,
        email: None,
        phone_number: None,
        affiliation: None,
        role: None,
        category: None,
    }
}

fn input(field_names: InputFieldNames) -> Input {
    Input {
        field_names,
        role_names: InputRoleNames {
            administrator: s("admin"),
            committee_operator: s("operator"),
            committee: s("committee"),
            general: s("general"),
        },
        category_names: InputCategoryNames {
            undergraduate_student: s("undergraduate"),
            graduate_student: s("graduate"),
            academic_staff: s("staff"),
        },
    }
}

fn taro() -> UserRecord {
    UserRecord {
        id: s("u1"),
        created_at: 0,
        first_name: s("Taro"),
        last_name: s("Yamada"),
        kana_first_name: s("タロウ"),
        kana_last_name: s("ヤマダ"),
        email: s("taro@example.com"),
        phone_number: s("+819012345678"),
        affiliation: s("Dept, A"),
        role: UserRole::General,
        category: UserCategory::UndergraduateStudent,
    }
}

fn text(bytes: Vec<u8>) -> String {
    String::from_utf8(bytes).unwrap()
}

#[test]
fn test_export_users_all_columns() {
    let users = vec![Found { entity: taro(), visible: true }];
    let out = run(&input(all_fields()), true, users).ok().unwrap();
    assert_eq!(
        text(out),
        "id,created_at,first_name,last_name,full_name,kana_first_name,kana_last_name,kana_full_name,email,phone_number,affiliation,role,category\r\n\
         u1,1970-01-01 09:00:00,Taro,Yamada,Yamada Taro,タロウ,ヤマダ,ヤマダ タロウ,taro@example.com,\"=\"\"09012345678\"\"\",\"Dept, A\",general,undergraduate\r\n"
    );
}

#[test]
fn test_export_users_chosen_columns() {
    let mut fields = no_fields();
    fields.email = Some(s("Mail"));
    fields.role = Some(s("Role"));
    let mut other = taro();
    other.email = s("hanako@example.com");
    other.role = UserRole::Administrator;
    let users = vec![
        Found { entity: taro(), visible: true },
        Found { entity: other, visible: true },
    ];
    let out = run(&input(fields), true, users).ok().unwrap();
    assert_eq!(
        text(out),
        "Mail,Role\r\ntaro@example.com,general\r\nhanako@example.com,admin\r\n"
    );
}

#[test]
fn test_export_users_no_users() {
    let out = run(&input(all_fields()), true, vec![]).ok().unwrap();
    assert_eq!(
        text(out),
        "id,created_at,first_name,last_name,full_name,kana_first_name,kana_last_name,kana_full_name,email,phone_number,affiliation,role,category\r\n"
    );
}

#[test]
fn test_export_users_no_columns() {
    let users = vec![Found { entity: taro(), visible: true }];
    let out = run(&input(no_fields()), true, users).ok().unwrap();
    assert_eq!(text(out), "\"\"\r\n\"\"\r\n");
}

#[test]
fn test_export_users_date_in_japan_time() {
    let mut fields = no_fields();
    fields.created_at = Some(s("at"));
    let mut user = taro();
    user.created_at = 1_600_000_000;
    let out = run(&input(fields), true, vec![Found { entity: user, visible: true }]).ok().unwrap();
    assert_eq!(text(out), "at\r\n2020-09-13 21:26:40\r\n");
}

#[test]
fn test_export_users_roles_and_categories() {
    let mut fields = no_fields();
    fields.role = Some(s("r"));
    fields.category = Some(s("c"));
    let mut a = taro();
    a.role = UserRole::CommitteeOperator;
    a.category = UserCategory::GraduateStudent;
    let mut b = taro();
    b.role = UserRole::Committee;
    b.category = UserCategory::AcademicStaff;
    let users = vec![Found { entity: a, visible: true }, Found { entity: b, visible: true }];
    let out = run(&input(fields), true, users).ok().unwrap();
    assert_eq!(text(out), "r,c\r\noperator,graduate\r\ncommittee,staff\r\n");
}

#[test]
fn test_export_users_insufficient_permissions() {
    let users = vec![Found { entity: taro(), visible: true }];
    let res = run(&input(all_fields()), false, users);
    assert!(matches!(res, Err(UseCaseError::UseCase(Error::InsufficientPermissions))));
}

#[test]
fn test_export_users_invisible_user_fails() {
    let users = vec![
        Found { entity: taro(), visible: true },
        Found { entity: taro(), visible: false },
    ];
    let res = run(&input(all_fields()), true, users);
    assert!(matches!(res, Err(UseCaseError::Internal(_))));
}

#[test]
fn test_phone_number_with_country_code() {
    assert_eq!(phone_number_text(&s("+819012345678")), "=\"09012345678\"");
}

#[test]
fn test_phone_number_domestic() {
    assert_eq!(phone_number_text(&s("0312345678")), "=\"0312345678\"");
}

#[test]
fn test_phone_number_other_country() {
    assert_eq!(phone_number_text(&s("+8212345")), "=\"+8212345\"");
}

#[test]
fn test_full_name_is_last_then_first() {
    assert_eq!(full_name_text(&s("Taro"), &s("Yamada")), "Yamada Taro");
}

#[test]
fn test_write_record_with_given_time() {
    let mut fields = no_fields();
    fields.id = Some(s("id"));
    fields.created_at = Some(s("at"));
    let record = write_record_with_time(&input(fields), &taro(), s("TIME"));
    assert_eq!(record, vec!["u1", "TIME"]);
}

#[test]
fn test_write_record_time_left_out() {
    let mut fields = no_fields();
    fields.id = Some(s("id"));
    let record = write_record_with_time(&input(fields), &taro(), s("TIME"));
    assert_eq!(record, vec!["u1"]);
}

#[test]
fn test_export_users_dates_at_the_renderable_bounds() {
    let mut fields = no_fields();
    fields.created_at = Some(s("at"));
    let mut latest = taro();
    latest.created_at = 8_210_266_790_399;
    let mut earliest = taro();
    earliest.created_at = -8_334_601_142_400;
    let out = run(
        &input(fields),
        true,
        vec![Found { entity: latest, visible: true }, Found { entity: earliest, visible: true }],
    )
    .ok()
    .unwrap();
    let out = text(out);
    assert!(out.contains("262142-12-31 08:59:59"));
    assert!(out.contains("-262143-01-02 09:00:00"));
}
