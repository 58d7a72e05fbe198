# sos21_use_case

The use-case layer of a festival-management service: the decisions each
operation takes (who may do what, which entity is reported as missing, which
error a refusal of the entity layer becomes, what an export writes), verified
with Verus.

Each operation is a module whose `run` takes what the repositories and the
entity layer answered (entities with whether the logged-in user may see them,
and the verdicts of the entity checks) and returns the operation's result. Its
contract states the outcome for every input through a spec function
`run_outcome`. Operations that change the repositories (`create_project`,
`accept_project_subowner`, `create_file`, `distribute_files`, `answer_form`,
`answer_registration_form`, `create_form_answer`, `create_form`,
`create_registration_form`, `invite_user`, `assign_user_role_to_email`) also
have an `effects` function that lists, in order, the changes to make from the
same answers. Operations that build a new entity themselves (`create_file`,
`create_form_answer`, `create_registration_form`, `distribute_files`) take
its identifier, creation time and author as a `model::Creation` and return
the entity made of them and of the validated content; `create_project` and
`accept_project_subowner` return the project with the names of its owner and
subowner. Laws of the operations are public proof functions next to them.

- `error`: `UseCaseError`, `UseCaseResult`, and the `Outcome` view of a result.
- `flow`: the decisions shared by all operations (visibility, first failure).
- `model`, `domain`: identifiers, roles and categories; the reasons the entity
  layer gives for a refusal.
- `interface`: conversion of forms, form conditions, project queries and form
  answers, with their error mappings.
- `export_users`, `export_projects`, `export_registration_form_answers`: CSV
  exports, specified down to the bytes; `csv_output` writes tables through the
  `csv` crate, `text` renders numbers, identifiers (`uuid`) and times
  (`chrono`).
- one module per remaining operation (`get_*`, `list_*`, `create_*`,
  `answer_*`, `distribute_files`, `invite_user`, ...).

The tests under `tests/` run the library on concrete values.
