mod item;
pub use item::{
    answer_item_outcome, answer_items_outcome, file_answer_outcome, files_outcome,
    built_answer_item, file_answer_store, files_internal, to_file_sharing_answer, to_form_answer_item,
    to_form_answer_items, to_registration_form_answer_items, answer_items_internal, unit_outcome, AnswerBodyChecks, AnswerSharingScope, DecidedAnswerItem,
    FileAnswerDecision, FileAnswerLookup, FileSharingAnswer, FormAnswerItem, FormAnswerItemBody,
    FormAnswerItemError, NewSharing,
    FormAnswerItemsError, InputFormAnswerItem, InputFormAnswerItemBody, InputFormAnswerItemFile,
    RegistrationFormAnswerRespondent, ShareTarget,
};
