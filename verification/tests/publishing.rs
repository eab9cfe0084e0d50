use fast_marketplace::domain::error::DomainError;
use fast_marketplace::infra::marketplace::{Poll, CONFIRMATION_POLLS};
use fast_marketplace::infra::publishing::{
    accepts, next_publish_step, PublishAction, PublishEvent, PublishStage, CONFIRMATION_PAUSE_MS,
    FORM_LOAD_PAUSE_MS,
};

fn automation_text(e: DomainError) -> String {
    match e {
        DomainError::AutomationError(m) => m,
        other => panic!("expected an automation failure, got {:?}", other),
    }
}

fn address(url: &str) -> PublishEvent {
    PublishEvent::PageAddress(url.to_string())
}

#[test]
fn sign_in_page_closes_before_any_photo() {
    let (stage, action) = next_publish_step(PublishStage::CheckingLogin, address("https://www.facebook.com/login/?next=x"));
    assert_eq!(stage, PublishStage::Finished);
    match action {
        PublishAction::CloseAndReturn(Err(e)) => assert_eq!(
            automation_text(e),
            "Você precisa estar logado no Facebook antes de publicar. Use a opção 'Entrar' primeiro."
        ),
        other => panic!("unexpected {:?}", other),
    }
    assert!(!accepts(stage, &PublishEvent::StepEnded(Ok(()))));
    let (stage, _) = next_publish_step(PublishStage::CheckingLogin, address("https://www.facebook.com/checkpoint/1"));
    assert_eq!(stage, PublishStage::Finished);
}

#[test]
fn signed_in_publication_runs_in_order() {
    let (stage, action) = next_publish_step(PublishStage::CheckingLogin, address("https://www.facebook.com/marketplace/create/rental"));
    assert_eq!(stage, PublishStage::WaitingForPhotoInput);
    assert!(matches!(action, PublishAction::WaitForPhotoInput));
    let (stage, action) = next_publish_step(stage, PublishEvent::StepEnded(Ok(())));
    assert_eq!(stage, PublishStage::UploadingPhotos);
    assert!(matches!(action, PublishAction::UploadPhotos));
    let (stage, action) = next_publish_step(stage, PublishEvent::StepEnded(Ok(())));
    assert_eq!(stage, PublishStage::FillingForm);
    assert!(matches!(action, PublishAction::FillForm { pause_ms: 5000 }));
    assert_eq!(FORM_LOAD_PAUSE_MS, 5000);
    let (stage, action) = next_publish_step(stage, PublishEvent::StepEnded(Ok(())));
    assert_eq!(stage, PublishStage::Confirming { polls: 0 });
    assert!(matches!(action, PublishAction::LookForConfirmation { pause_ms: 2000 }));
    assert_eq!(CONFIRMATION_PAUSE_MS, 2000);
    let (stage, action) = next_publish_step(stage, PublishEvent::Looked(Poll::KeepWaiting));
    assert_eq!(stage, PublishStage::Confirming { polls: 1 });
    assert!(matches!(action, PublishAction::LookForConfirmation { .. }));
    let (stage, action) = next_publish_step(stage, PublishEvent::Looked(Poll::Confirmed));
    assert_eq!(stage, PublishStage::Finished);
    assert!(matches!(action, PublishAction::CloseAndReturn(Ok(()))));
}

#[test]
fn failed_step_abandons_publication() {
    let failure = DomainError::AutomationError("Elemento não carregou na tela: x".to_string());
    let (stage, action) = next_publish_step(PublishStage::UploadingPhotos, PublishEvent::StepEnded(Err(failure)));
    assert_eq!(stage, PublishStage::Finished);
    match action {
        PublishAction::Abandon(e) => assert_eq!(automation_text(e), "Elemento não carregou na tela: x"),
        other => panic!("unexpected {:?}", other),
    }
}

#[test]
fn confirmation_gives_up_after_last_look() {
    assert_eq!(CONFIRMATION_POLLS, 240);
    let mut stage = PublishStage::Confirming { polls: 0 };
    let mut looks = 0;
    loop {
        assert!(accepts(stage, &PublishEvent::Looked(Poll::KeepWaiting)));
        looks += 1;
        let (next, action) = next_publish_step(stage, PublishEvent::Looked(Poll::KeepWaiting));
        stage = next;
        if let PublishAction::CloseAndReturn(result) = action {
            assert_eq!(
                automation_text(result.unwrap_err()),
                "A publicação falhou, o tempo esgotou ou a janela foi fechada prematuramente."
            );
            break;
        }
    }
    assert_eq!(looks, 240);
    assert_eq!(stage, PublishStage::Finished);
}

#[test]
fn closed_window_ends_confirmation() {
    let (stage, action) = next_publish_step(PublishStage::Confirming { polls: 3 }, PublishEvent::Looked(Poll::Stop));
    assert_eq!(stage, PublishStage::Finished);
    assert!(matches!(action, PublishAction::CloseAndReturn(Err(_))));
}
