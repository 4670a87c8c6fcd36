use learning::routes::admin_password::{change_password_form, FORM_PAGE_HEAD, FORM_PAGE_TAIL};

#[test]
fn form_page_without_messages_is_head_and_tail() {
    let page = change_password_form(&vec![]);
    assert_eq!(page, format!("{}{}", FORM_PAGE_HEAD, FORM_PAGE_TAIL));
}

#[test]
fn form_page_shows_messages_in_order() {
    let page = change_password_form(&vec![
        "The current password is incorrect.".to_string(),
        "second".to_string(),
    ]);
    assert_eq!(
        page,
        format!(
            "{}<p><i>The current password is incorrect.</i></p><p><i>second</i></p>{}",
            FORM_PAGE_HEAD, FORM_PAGE_TAIL
        )
    );
}

#[test]
fn form_page_does_not_escape_messages() {
    let page = change_password_form(&vec!["<b>&</b>".to_string()]);
    assert!(page.contains("<p><i><b>&</b></i></p>"));
}

#[test]
fn form_page_has_the_three_password_fields() {
    let page = change_password_form(&vec![]);
    assert!(page.starts_with("<!DOCTYPE html>\n<html lang=\"en\">"));
    assert!(page.contains("<title>Change Password</title>"));
    assert!(page.contains("<form action=\"/admin/password\" method=\"post\">"));
    assert!(page.contains("name=\"current_password\""));
    assert!(page.contains("name=\"new_password\""));
    assert!(page.contains("name=\"new_password_check\""));
    assert!(page.contains("<p><a href=\"/admin/dashboard\">&lt;- Back</a></p>"));
    assert!(page.ends_with("</body>\n</html>"));
    assert!(page.contains("<body>\n\n<form"));
}
