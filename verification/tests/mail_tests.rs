use planner::datetime::DateTime;
use planner::mail::{invitation_mail, trip_confirmation_mail};

fn dt(secs: i64) -> DateTime {
    DateTime::from_timestamp(secs, 0).unwrap()
}

#[test]
fn trip_confirmation_mail_body() {
    let mail = trip_confirmation_mail(
        &"Ana".to_string(),
        &"ana@x.com".to_string(),
        &"Roma".to_string(),
        &dt(1_741_176_000),
        &dt(1_741_176_000 + 86_400),
        &"LINK".to_string(),
    );
    let expected = format!(r#"
                <div style="font-family: sans-serif; font-size: 16px; line-height: 1.6;">
                  <p>Você solicitou a criação de uma viagem para <strong>{}</strong> nas datas de <strong>{}</strong> até <strong>{}</strong>.</p>
                  <p></p>
                  <p>Para confirmar sua viagem, clique no link abaixo:</p>
                  <p></p>
                  <p>
                    <a href="{}">Confirmar viagem</a>
                  </p>
                  <p></p>
                  <p>Caso você não saiba do que se trata esse e-mail, apenas ignore esse e-mail.</p>
                </div>
            "#, "Roma", "05 de março, 2025", "06 de março, 2025", "LINK").trim().to_string();
    assert_eq!(mail.html, expected);
    assert_eq!(mail.subject, "Confirme sua viagem para Roma em 05 de março, 2025");
    assert_eq!(mail.to_name.as_deref(), Some("Ana"));
}

#[test]
fn invitation_mail_body() {
    let mail = invitation_mail(
        &"bo@x.com".to_string(),
        &"Roma".to_string(),
        &dt(1_741_176_000),
        &dt(1_741_176_000 + 86_400),
        &"LINK".to_string(),
    );
    let expected = format!(r#"
                    <div style="font-family: sans-serif; font-size: 16px; line-height: 1.6;">
                      <p>Você foi convidado(a) para participar de uma viagem para  <strong>{}</strong> nas datas de <strong>{}</strong> até <strong>{}</strong>.</p>
                      <p></p>
                      <p>Para confirmar sua presença na viagem, clique no link abaixo:</p>
                      <p></p>
                      <p>
                        <a href="{}">Confirmar viagem</a>
                      </p>
                      <p></p>
                      <p>Caso você não saiba do que se trata esse e-mail, apenas ignore esse e-mail.</p>
                    </div>
                "#, "Roma", "05 de março, 2025", "06 de março, 2025", "LINK").trim().to_string();
    assert_eq!(mail.html, expected);
    assert_eq!(mail.subject, "Confirme sua presença na viagem para Roma em 05 de março, 2025");
    assert!(mail.to_name.is_none());
    assert_eq!(mail.from_name, "Equipe Plann.er");
    assert_eq!(mail.from_address, "noreply@plann.er");
}
