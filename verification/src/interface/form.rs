mod condition;
pub use condition::{to_form_condition, FormConditionError};

mod check_answer_error;
pub use check_answer_error::{
    check_answer_error_of, check_answer_item_error_of, to_check_answer_error,
    to_check_answer_item_error, CheckAnswerError, CheckAnswerItemError,
};

mod item;
pub use item::{
    body_error, check_all_accepted, checks_fit, converted_items, first_item_error, item_error, to_form_item,
    to_form_items, Checkbox, ConvertedFormItem, FormItem, FormItemBody, FormItemBodyChecks,
    FormItemChecks, FormItemCondition, FormItemError, FormItemsError, GridRadioColumn,
    GridRadioRow, Radio,
};
