# learning

The request-handling logic of a small newsletter service, verified with Verus.

- `src/routes/admin_password.rs`: the admin's password change. The page with
  the form (`change_password_form`, exact to the character), and the decisions
  taken when the form is posted, as a state machine (`change_password`) with
  proofs about whole runs of it: at most four decisions, one answer and only at
  the end; only the account of the user who posted the form is looked up and
  updated, the password checked is the form's current password, the password
  stored is the form's new password, and only after both copies agreed and the
  current password was accepted; every redirect goes back to the password page.
- `src/routes/subscriptions_confirm.rs`: the confirmation link's parameters.
- `src/domain.rs`: a new subscriber (e-mail address and name).
- `src/startup.rs`: the default log filter.
- `app/`: the HTTP server (actix-web), form and query deserialization, flash
  messages, and the loop that performs the password change's outside work.
